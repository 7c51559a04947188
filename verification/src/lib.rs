//! Session-gated data loading and rendering-state coordination for a wallet
//! page: a session gate, session-keyed cached queries with tri-state
//! resolution, keyed list rendering, and the projection of those states into
//! a page view.

pub mod list;
pub mod page;
pub mod profile;
pub mod query;
pub mod session;
pub mod text;
