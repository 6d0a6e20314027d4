//! The keyed account store: a persistent map from 32-byte addresses to
//! accounts, modelled as a sequence of entries read through a first-match
//! lookup.  Creation at an occupied address is refused by the store's users,
//! which is the duplicate protection of the whole scheme.

use vstd::prelude::*;

use crate::accounts::{Account, AccountModel};
use crate::bytes::bytes_eq;

verus! {

/// One entry of the keyed account store.
#[derive(Debug)]
pub struct Entry {
    /// The 32-byte address the account lives at.
    pub addr: Vec<u8>,
    /// The account stored there.
    pub account: Account,
}

/// The account stored at `a`, if any: the store behaves as a map, read by
/// first match.
pub open spec fn lookup(s: Seq<Entry>, a: Seq<u8>) -> Option<AccountModel>
    decreases s.len(),
{
    if s.len() == 0 {
        None
    } else if s[0].addr@ == a {
        Some(s[0].account@)
    } else {
        lookup(s.drop_first(), a)
    }
}

/// Looking up the entry that a first match finds.
pub proof fn lemma_lookup_first_match(s: Seq<Entry>, a: Seq<u8>, i: int)
    requires
        0 <= i < s.len(),
        s[i].addr@ == a,
        forall|j: int| 0 <= j < i ==> s[j].addr@ != a,
    ensures
        lookup(s, a) == Some(s[i].account@),
    decreases i,
{
    if i > 0 {
        lemma_lookup_first_match(s.drop_first(), a, i - 1);
    }
}

/// A store none of whose entries carries `a` has nothing at `a`.
pub proof fn lemma_lookup_none(s: Seq<Entry>, a: Seq<u8>)
    requires
        forall|j: int| 0 <= j < s.len() ==> s[j].addr@ != a,
    ensures
        lookup(s, a) is None,
    decreases s.len(),
{
    if s.len() > 0 {
        lemma_lookup_none(s.drop_first(), a);
    }
}

/// Appending an entry binds its address only where the address was free, and
/// changes no other binding.
pub proof fn lemma_lookup_push(s: Seq<Entry>, e: Entry, a: Seq<u8>)
    ensures
        lookup(s.push(e), a) == (if lookup(s, a) is Some {
            lookup(s, a)
        } else if a == e.addr@ {
            Some(e.account@)
        } else {
            None
        }),
    decreases s.len(),
{
    if s.len() == 0 {
        assert(s.push(e)[0] == e);
        assert(s.push(e).drop_first() =~= s);
    } else {
        assert(s.push(e)[0] == s[0]);
        assert(s.push(e).drop_first() =~= s.drop_first().push(e));
        lemma_lookup_push(s.drop_first(), e, a);
    }
}

/// Overwriting the first entry of an address rebinds that address and
/// changes no other binding.
pub proof fn lemma_lookup_update(s: Seq<Entry>, i: int, e: Entry, a: Seq<u8>)
    requires
        0 <= i < s.len(),
        s[i].addr@ == e.addr@,
        forall|j: int| 0 <= j < i ==> s[j].addr@ != e.addr@,
    ensures
        lookup(s.update(i, e), a) == (if a == e.addr@ {
            Some(e.account@)
        } else {
            lookup(s, a)
        }),
    decreases i,
{
    let t = s.update(i, e);
    if i == 0 {
        assert(t[0] == e);
        assert(t.drop_first() =~= s.drop_first());
    } else {
        assert(t[0] == s[0]);
        assert(t.drop_first() =~= s.drop_first().update(i - 1, e));
        assert forall|j: int| 0 <= j < i - 1 implies s.drop_first()[j].addr@ != e.addr@ by {
            assert(s.drop_first()[j] == s[j + 1]);
        }
        lemma_lookup_update(s.drop_first(), i - 1, e, a);
    }
}

/// Finds the first entry at address `a`, if any.
pub fn find_index(accounts: &Vec<Entry>, a: &Vec<u8>) -> (r: Option<usize>)
    ensures
        match r {
            Some(i) => {
                &&& i < accounts@.len()
                &&& accounts@[i as int].addr@ == a@
                &&& forall|j: int| 0 <= j < i ==> accounts@[j].addr@ != a@
                &&& lookup(accounts@, a@) == Some(accounts@[i as int].account@)
            },
            None => lookup(accounts@, a@) is None,
        },
{
    let mut i: usize = 0;
    while i < accounts.len()
        invariant
            i <= accounts@.len(),
            forall|j: int| 0 <= j < i ==> accounts@[j].addr@ != a@,
        decreases accounts@.len() - i,
    {
        let e = &accounts[i];
        if bytes_eq(&e.addr, a) {
            proof {
                lemma_lookup_first_match(accounts@, a@, i as int);
            }
            return Some(i);
        }
        i = i + 1;
    }
    proof {
        lemma_lookup_none(accounts@, a@);
    }
    None
}

/// Replaces the entry at index `i`.
pub fn set_entry(accounts: &mut Vec<Entry>, i: usize, e: Entry)
    requires
        i < old(accounts)@.len(),
    ensures
        final(accounts)@ == old(accounts)@.update(i as int, e),
{
    let slot = &mut accounts[i];
    *slot = e;
}

} // verus!
