use vstd::prelude::*;
use crate::list::{keyed_entries, keys_of, unique_keys, TokenRecord, TxnRecord};
use crate::profile::ProfileDetails;
use crate::query::{FetchError, QueryState};
use crate::session::Session;
use crate::text::{dec_digits, format_u64};

verus! {

/// How many recent transactions the page requests: one cursor page of this
/// many entries, from offset zero.
pub const RECENT_TXN_CNT: usize = 10;

/// How many token holdings the page requests: one cursor page of this many
/// entries, from offset zero.
pub const TOKEN_PAGE_CNT: usize = 5;

/// The greeter section: a pulsing placeholder until the profile is known.
pub enum GreeterView {
    /// Shown while the profile query is pending.
    Fallback,
    /// The resolved greeting.
    Profile {
        /// The name shown under the welcome line.
        name: String,
        /// The picture shown beside it.
        pic: String,
    },
}

/// The balance section: a placeholder, the amount's text, or a redirect when
/// the balance fetch failed.
pub enum BalanceView {
    /// Shown while the balance query is pending.
    Fallback,
    /// The resolved balance, as its decimal text.
    Amount(String),
    /// The balance fetch failed; the page redirects instead of showing one.
    Redirect,
}

/// A keyed list section: a loading placeholder, the rendered entries (one
/// key per record, in the records' order), or the flag raised on a duplicate
/// key.
pub enum ListSection {
    /// Shown while the backing query is pending.
    Fallback,
    /// One entry per record, under its key, in order.
    Entries(Vec<u64>),
    /// The records carried a duplicate key: a caller error, flagged rather
    /// than rendered.
    DuplicateKey,
}

/// Everything one render pass of the wallet page decides: whether the login
/// call-to-action shows, and what each data section shows.
pub struct WalletView {
    /// Present exactly when the session gate reads disconnected.
    pub login_cta: bool,
    /// The profile greeting.
    pub greeter: GreeterView,
    /// The token balance.
    pub balance: BalanceView,
    /// The token holdings list.
    pub tokens: ListSection,
    /// The recent-transactions list.
    pub txns: ListSection,
}

/// What a keyed list section must show for resolved records: their keys in
/// order when they are unique, the duplicate-key flag otherwise.
pub open spec fn shows_entries<T: crate::list::Keyed>(sec: &ListSection, items: Seq<T>) -> bool {
    if unique_keys(items) {
        sec matches ListSection::Entries(ks) && ks@ == keys_of(items)
    } else {
        sec is DuplicateKey
    }
}

/// Every fetch starts here: a connected session hands its authenticated id
/// to the remote call, and a disconnected one short-circuits with an error
/// before the call is attempted.
pub fn producer_gate(session: Session) -> (r: Result<u64, FetchError>)
    ensures
        match session {
            Session::Connected(id) => r == Ok::<u64, FetchError>(id),
            Session::Disconnected => r == Err::<u64, FetchError>(FetchError::Unauthenticated),
        },
{
    match session {
        Session::Connected(id) => Ok(id),
        Session::Disconnected => Err(FetchError::Unauthenticated),
    }
}

/// Settles the balance fetch: an amount becomes its decimal text, an error
/// propagates as-is.
pub fn settle_balance(r: Result<u64, FetchError>) -> (out: Result<String, FetchError>)
    ensures
        match r {
            Ok(n) => out matches Ok(s) && s@ == dec_digits(n as nat),
            Err(e) => out == Err::<String, FetchError>(e),
        },
{
    match r {
        Ok(n) => Ok(format_u64(n)),
        Err(e) => Err(e),
    }
}

/// Settles the tokens fetch: the page's records when it succeeded, and the
/// empty list when it failed — this query swallows its error.
pub fn settle_tokens(r: Option<Vec<TokenRecord>>) -> (out: Vec<TokenRecord>)
    ensures
        match r {
            Some(data) => out@ == data@,
            None => out@.len() == 0,
        },
{
    match r {
        Some(data) => data,
        None => Vec::new(),
    }
}

/// One render pass of the wallet page. Every clause holds for every input:
/// the login call-to-action shows exactly when the session is disconnected;
/// a pending query renders its fallback; a resolved balance renders its text
/// and a failed one a redirect; resolved records render one entry per record
/// in the order fetched, with a duplicate key flagged; a failed transactions
/// fetch renders the empty list.
pub fn render_wallet(
    session: Session,
    profile: &QueryState<ProfileDetails>,
    balance: &QueryState<Result<String, FetchError>>,
    tokens: &QueryState<Vec<TokenRecord>>,
    txns: &QueryState<Result<Vec<TxnRecord>, FetchError>>,
) -> (v: WalletView)
    ensures
        v.login_cta == !session.is_connected(),
        profile is Pending ==> v.greeter is Fallback,
        profile matches QueryState::Resolved(d) ==> (v.greeter matches GreeterView::Profile {
            name,
            pic,
        } && name@ == d.spec_display_name() && pic@ == d.spec_profile_pic()),
        balance is Pending ==> v.balance is Fallback,
        balance matches QueryState::Resolved(Ok(s)) ==> (v.balance matches BalanceView::Amount(t)
            && t@ == s@),
        balance matches QueryState::Resolved(Err(_)) ==> v.balance is Redirect,
        tokens is Pending ==> v.tokens is Fallback,
        tokens matches QueryState::Resolved(items) ==> shows_entries(&v.tokens, items@),
        txns is Pending ==> v.txns is Fallback,
        txns matches QueryState::Resolved(Ok(items)) ==> shows_entries(&v.txns, items@),
        txns matches QueryState::Resolved(Err(_)) ==> (v.txns matches ListSection::Entries(ks)
            && ks@.len() == 0),
{
    let login_cta = !session.is_connected();
    let greeter = match profile {
        QueryState::Pending => GreeterView::Fallback,
        QueryState::Resolved(d) => GreeterView::Profile {
            name: d.display_name_or_fallback(),
            pic: d.profile_pic_or_fallback(),
        },
    };
    let balance_view = match balance {
        QueryState::Pending => BalanceView::Fallback,
        QueryState::Resolved(Ok(s)) => BalanceView::Amount(s.clone()),
        QueryState::Resolved(Err(_)) => BalanceView::Redirect,
    };
    let tokens_view = match tokens {
        QueryState::Pending => ListSection::Fallback,
        QueryState::Resolved(items) => match keyed_entries(items) {
            Some(ks) => ListSection::Entries(ks),
            None => ListSection::DuplicateKey,
        },
    };
    let txns_view = match txns {
        QueryState::Pending => ListSection::Fallback,
        QueryState::Resolved(Ok(items)) => match keyed_entries(items) {
            Some(ks) => ListSection::Entries(ks),
            None => ListSection::DuplicateKey,
        },
        QueryState::Resolved(Err(_)) => ListSection::Entries(Vec::new()),
    };
    WalletView {
        login_cta,
        greeter,
        balance: balance_view,
        tokens: tokens_view,
        txns: txns_view,
    }
}

/// A balance amount that settles and renders shows exactly its decimal text.
/// The premises are what `settle_balance` ensures of an amount `n` and what
/// `render_wallet` ensures of a balance cell resolved with that settled
/// string; together they pin the rendered text to `dec_digits(n)`.
pub proof fn lemma_balance_text_exact(n: u64, s: String, v: WalletView)
    requires
        s@ == dec_digits(n as nat),
        v.balance matches BalanceView::Amount(t) && t@ == s@,
    ensures
        v.balance matches BalanceView::Amount(t) && t@ == dec_digits(n as nat),
{
}

} // verus!
