use vstd::prelude::*;

verus! {

/// A record that a keyed list renderer can diff across render passes: it
/// exposes a stable identity.
pub trait Keyed {
    /// The stable key of this record.
    spec fn spec_key(&self) -> u64;

    /// Reads the stable key.
    fn key(&self) -> (k: u64)
        ensures
            k == self.spec_key(),
    ;
}

/// A token holding shown on the page: the token's root reference and the
/// principal that owns it. Its list key is the root reference.
#[derive(Clone, Copy, PartialEq, Eq, Structural, Debug)]
pub struct TokenRecord {
    /// The token's root reference.
    pub root: u64,
    /// The principal that owns the holding.
    pub owner: u64,
}

impl Keyed for TokenRecord {
    open spec fn spec_key(&self) -> u64 {
        self.root
    }

    fn key(&self) -> u64 {
        self.root
    }
}

/// One entry of the recent-transactions list; its id is the key used for
/// list stability.
#[derive(Clone, Copy, PartialEq, Eq, Structural, Debug)]
pub struct TxnRecord {
    /// The transaction's identity.
    pub id: u64,
}

impl Keyed for TxnRecord {
    open spec fn spec_key(&self) -> u64 {
        self.id
    }

    fn key(&self) -> u64 {
        self.id
    }
}

/// The keys of a sequence of records, in the records' order.
pub open spec fn keys_of<T: Keyed>(s: Seq<T>) -> Seq<u64> {
    s.map(|i: int, x: T| x.spec_key())
}

/// Whether every record of the sequence carries a distinct key.
pub open spec fn unique_keys<T: Keyed>(s: Seq<T>) -> bool {
    forall|i: int, j: int| 0 <= i < j < s.len() ==> s[i].spec_key() != s[j].spec_key()
}

/// One list render pass: one entry per record, in the records' order, each
/// under its key. A duplicate key is a caller error and is rejected rather
/// than rendered.
pub fn keyed_entries<T: Keyed>(items: &Vec<T>) -> (r: Option<Vec<u64>>)
    ensures
        match r {
            Some(ks) => unique_keys(items@) && ks@ == keys_of(items@),
            None => !unique_keys(items@),
        },
{
    let mut ks: Vec<u64> = Vec::new();
    let mut i: usize = 0;
    while i < items.len()
        invariant
            i <= items@.len(),
            ks@.len() == i,
            forall|t: int| 0 <= t < i ==> ks@[t] == items@[t].spec_key(),
        decreases items@.len() - i,
    {
        let k = items[i].key();
        ks.push(k);
        i = i + 1;
    }
    proof {
        assert(ks@ =~= keys_of(items@));
    }
    let mut a: usize = 0;
    while a < ks.len()
        invariant
            a <= ks@.len(),
            ks@ == keys_of(items@),
            ks@.len() == items@.len(),
            forall|t: int| 0 <= t < ks@.len() ==> ks@[t] == items@[t].spec_key(),
            forall|t: int, u: int| 0 <= t < u < ks@.len() && t < a ==> ks@[t] != ks@[u],
        decreases ks@.len() - a,
    {
        let mut b: usize = a + 1;
        while b < ks.len()
            invariant
                a < b,
                a < ks@.len(),
                b <= ks@.len(),
                ks@ == keys_of(items@),
                ks@.len() == items@.len(),
                forall|t: int| 0 <= t < ks@.len() ==> ks@[t] == items@[t].spec_key(),
                forall|u: int| a < u < b ==> ks@[a as int] != ks@[u],
            decreases ks@.len() - b,
        {
            if ks[a] == ks[b] {
                proof {
                    assert(items@[a as int].spec_key() == items@[b as int].spec_key());
                }
                return None;
            }
            b = b + 1;
        }
        a = a + 1;
    }
    proof {
        assert forall|i: int, j: int| 0 <= i < j < items@.len() implies items@[i].spec_key()
            != items@[j].spec_key() by {
            assert(ks@[i] == items@[i].spec_key());
            assert(ks@[j] == items@[j].spec_key());
            assert(ks@[i] != ks@[j]);
        }
    }
    Some(ks)
}

} // verus!
