//! The in-memory token-revocation registry.

use vstd::prelude::*;
use crate::collections::str_eq;
use crate::domain::data_stores::BannedTokenStoreError;

verus! {

/// The set of views of a list of strings.
pub open spec fn strings_to_set(s: Seq<String>) -> Set<Seq<char>>
    decreases s.len(),
{
    if s.len() == 0 {
        Set::empty()
    } else {
        strings_to_set(s.drop_last()).insert(s.last()@)
    }
}

proof fn lemma_strings_to_set_contains(s: Seq<String>, k: Seq<char>)
    ensures
        strings_to_set(s).contains(k) <==> exists|i: int| 0 <= i < s.len() && s[i]@ == k,
    decreases s.len(),
{
    if s.len() > 0 {
        lemma_strings_to_set_contains(s.drop_last(), k);
        assert(forall|i: int| 0 <= i < s.len() - 1 ==> s.drop_last()[i] == s[i]);
        if strings_to_set(s).contains(k) {
            if k == s.last()@ {
                assert(s[s.len() - 1]@ == k);
            } else {
                let i = choose|i: int| 0 <= i < s.drop_last().len() && s.drop_last()[i]@ == k;
                assert(s[i]@ == k);
            }
        }
        if exists|i: int| 0 <= i < s.len() && s[i]@ == k {
            let i = choose|i: int| 0 <= i < s.len() && s[i]@ == k;
            if i < s.len() - 1 {
                assert(s.drop_last()[i]@ == k);
            }
        }
    }
}

/// Registering a batch revokes exactly its members, on top of what was
/// already revoked: afterwards a registered token checks revoked, and a
/// token that was neither revoked before nor in the batch still checks
/// clear.
pub proof fn lemma_register_then_check(
    before: Set<Seq<char>>,
    tokens: Seq<String>,
    registered: Seq<char>,
    untouched: Seq<char>,
)
    requires
        exists|i: int| 0 <= i < tokens.len() && tokens[i]@ == registered,
        !before.contains(untouched),
        forall|i: int| 0 <= i < tokens.len() ==> tokens[i]@ != untouched,
    ensures
        before.union(strings_to_set(tokens)).contains(registered),
        !before.union(strings_to_set(tokens)).contains(untouched),
{
    lemma_strings_to_set_contains(tokens, registered);
    lemma_strings_to_set_contains(tokens, untouched);
}

/// An in-memory registry of revoked tokens, viewed as the set of the tokens
/// it holds.
#[derive(Debug)]
pub struct HashsetBannedTokenStore {
    tokens: Vec<String>,
}

impl View for HashsetBannedTokenStore {
    type V = Set<Seq<char>>;

    closed spec fn view(&self) -> Set<Seq<char>> {
        strings_to_set(self.tokens@)
    }
}

impl Default for HashsetBannedTokenStore {
    /// An empty registry.
    fn default() -> (r: Self)
        ensures
            r@ == Set::<Seq<char>>::empty(),
    {
        HashsetBannedTokenStore { tokens: Vec::new() }
    }
}

impl HashsetBannedTokenStore {
    fn contains(&self, token: &str) -> (r: bool)
        ensures
            r == self@.contains(token@),
    {
        let len: usize = self.tokens.len();
        let mut i: usize = 0;
        while i < len
            invariant
                0 <= i <= len,
                len == self.tokens@.len(),
                forall|j: int| 0 <= j < i ==> self.tokens@[j]@ != token@,
            decreases len - i,
        {
            if str_eq(self.tokens[i].as_str(), token) {
                proof {
                    lemma_strings_to_set_contains(self.tokens@, token@);
                    assert(self.tokens@[i as int]@ == token@);
                }
                return true;
            }
            i = i + 1;
        }
        proof {
            lemma_strings_to_set_contains(self.tokens@, token@);
        }

        false
    }

    /// Marks every given token as revoked; re-registering one that is
    /// already present changes nothing. Never fails.
    pub fn register(&mut self, tokens: &Vec<String>) -> (r: Result<(), BannedTokenStoreError>)
        ensures
            r is Ok,
            final(self)@ == old(self)@.union(strings_to_set(tokens@)),
    {
        let len: usize = tokens.len();
        let mut i: usize = 0;
        while i < len
            invariant
                0 <= i <= len,
                len == tokens@.len(),
                self@ == old(self)@.union(strings_to_set(tokens@.take(i as int))),
            decreases len - i,
        {
            let ghost seen = tokens@.take(i as int);
            proof {
                assert(tokens@.take(i + 1).drop_last() =~= seen);
                assert(tokens@.take(i + 1).last() == tokens@[i as int]);
                assert(strings_to_set(tokens@.take(i + 1)) == strings_to_set(seen).insert(
                    tokens@[i as int]@,
                ));
            }
            if self.contains(tokens[i].as_str()) {
                proof {
                    assert(old(self)@.union(strings_to_set(tokens@.take(i + 1))) =~= old(self)@.union(
                        strings_to_set(seen),
                    ));
                }
            } else {
                let ghost before = self.tokens@;
                self.tokens.push(tokens[i].clone());
                proof {
                    assert(self.tokens@.drop_last() =~= before);
                    assert(strings_to_set(self.tokens@) == strings_to_set(before).insert(
                        tokens@[i as int]@,
                    ));
                    assert(strings_to_set(before).insert(tokens@[i as int]@) =~= old(self)@.union(
                        strings_to_set(tokens@.take(i + 1)),
                    ));
                }
            }
            i = i + 1;
        }
        proof {
            assert(tokens@.take(len as int) =~= tokens@);
        }

        Ok(())
    }

    /// Whether the token is currently revoked. Never fails.
    pub fn check(&self, token: &str) -> (r: Result<bool, BannedTokenStoreError>)
        ensures
            r == Ok::<bool, BannedTokenStoreError>(self@.contains(token@)),
    {
        Ok(self.contains(token))
    }
}

} // verus!
