use vstd::prelude::*;

use crate::pubkey::Pubkey;

verus! {

/// The fixed namespace tag that the whitelist record's address is derived
/// from: the bytes of "whitelist". It is a constant — not parameterized
/// per token — so every token served by one deployment of this hook
/// shares one whitelist.
pub open spec fn spec_whitelist_seed() -> Seq<u8> {
    seq![119u8, 104u8, 105u8, 116u8, 101u8, 108u8, 105u8, 115u8, 116u8]
}

/// The whitelist namespace tag as bytes, for callers that derive the
/// record's address.
pub fn whitelist_seed() -> (r: Vec<u8>)
    ensures
        r@ == spec_whitelist_seed(),
{
    let mut r: Vec<u8> = Vec::new();
    r.push(119);
    r.push(104);
    r.push(105);
    r.push(116);
    r.push(101);
    r.push(108);
    r.push(105);
    r.push(115);
    r.push(116);
    proof {
        assert(r@ =~= spec_whitelist_seed());
    }
    r
}

/// True when some entry of `s` is the identifier `key`.
pub open spec fn seq_contains_key(s: Seq<Pubkey>, key: Seq<u8>) -> bool {
    exists|i: int| 0 <= i < s.len() && s[i]@ == key
}

/// The entries after an idempotent append of `k`: unchanged when `k` is
/// already present, otherwise `k` is appended at the end, so that
/// insertion order is preserved.
pub open spec fn seq_append_key(s: Seq<Pubkey>, k: Pubkey) -> Seq<Pubkey> {
    if seq_contains_key(s, k@) {
        s
    } else {
        s.push(k)
    }
}

/// The persistent whitelist record: the authority permitted to mutate it,
/// and the ordered list of permitted destination identifiers.
pub struct WhiteList {
    pub authority: Pubkey,
    pub white_list: Vec<Pubkey>,
}

impl WhiteList {
    /// Well-formedness: the entries hold no duplicate identifier.
    pub open spec fn wf(self) -> bool {
        forall|i: int, j: int|
            0 <= i < j < self.white_list@.len() ==> self.white_list@[i]@ != self.white_list@[j]@
    }

    /// True when `key` is one of the permitted destination identifiers.
    pub open spec fn spec_contains(self, key: Seq<u8>) -> bool {
        seq_contains_key(self.white_list@, key)
    }

    /// A fresh record: the given authority and no entries.
    pub fn new(authority: Pubkey) -> (r: WhiteList)
        ensures
            r.authority == authority,
            r.white_list@.len() == 0,
            r.wf(),
    {
        WhiteList { authority, white_list: Vec::new() }
    }

    /// Membership test used by the transfer validator.
    pub fn contains(&self, key: &Pubkey) -> (r: bool)
        ensures
            r == self.spec_contains(key@),
    {
        let mut i: usize = 0;
        while i < self.white_list.len()
            invariant
                i <= self.white_list@.len(),
                forall|j: int| 0 <= j < i ==> self.white_list@[j]@ != key@,
            decreases self.white_list@.len() - i,
        {
            if self.white_list[i].key_eq(key) {
                return true;
            }
            i = i + 1;
        }
        false
    }

    /// Idempotent append: a no-op when `key` is already present, otherwise
    /// `key` goes to the end of the entries. Returns whether anything was
    /// inserted. The authority is never changed here, and no duplicate is
    /// ever created.
    pub fn append(&mut self, key: Pubkey) -> (inserted: bool)
        ensures
            final(self).authority == old(self).authority,
            final(self).white_list@ == seq_append_key(old(self).white_list@, key),
            inserted == !old(self).spec_contains(key@),
            old(self).wf() ==> final(self).wf(),
    {
        if self.contains(&key) {
            return false;
        }
        self.white_list.push(key);
        proof {
            let s0 = old(self).white_list@;
            let s1 = self.white_list@;
            assert(s1 == s0.push(key));
            if old(self).wf() {
                assert forall|i: int, j: int| 0 <= i < j < s1.len() implies s1[i]@ != s1[j]@ by {
                    if j == s0.len() {
                        assert(s1[i] == s0[i]);
                        if s0[i]@ == key@ {
                            assert(seq_contains_key(s0, key@));
                        }
                    }
                }
            }
        }
        true
    }
}

/// Appending the same identifier twice leaves the entries exactly as
/// appending it once: the second append finds the identifier present and
/// changes nothing.
pub proof fn lemma_append_key_idempotent(s: Seq<Pubkey>, k: Pubkey)
    ensures
        seq_append_key(seq_append_key(s, k), k) == seq_append_key(s, k),
{
    if !seq_contains_key(s, k@) {
        let s1 = s.push(k);
        assert(s1[s.len() as int]@ == k@);
        assert(seq_contains_key(s1, k@));
    }
}

} // verus!
