use vstd::prelude::*;

verus! {

/// The session gate's reading: whether a user session is authenticated, and
/// for whom. A session value is the identity by which query results are
/// cached; two sessions are the same exactly when their variants and carried
/// ids are equal.
#[derive(Clone, Copy, PartialEq, Eq, Structural, Debug)]
pub enum Session {
    /// No authenticated identity is present; the page shows the login
    /// call-to-action.
    Disconnected,
    /// An authenticated identity, carried as its principal id.
    Connected(u64),
}

impl Session {
    /// Whether the session gate reads "connected".
    pub open spec fn spec_is_connected(&self) -> bool {
        self matches Session::Connected(_)
    }

    #[verifier::when_used_as_spec(spec_is_connected)]
    pub fn is_connected(&self) -> (r: bool)
        ensures
            r == self.spec_is_connected(),
    {
        match self {
            Session::Connected(_) => true,
            Session::Disconnected => false,
        }
    }
}

} // verus!
