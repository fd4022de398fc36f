use vstd::prelude::*;
use crate::error::TokenMinterError;
use crate::pubkey::Pubkey;
use crate::state::TokenPair;

verus! {

/// What a token pair is found by: the remote domain and the bytes of the
/// remote token.
pub type RemoteKey = (u32, Seq<u8>);

/// The key under which `pair` is registered.
pub open spec fn remote_key(pair: TokenPair) -> RemoteKey {
    (pair.remote_domain, pair.remote_token@)
}

/// Whether some pair of `pairs` is registered under `key`.
pub open spec fn claims(pairs: Seq<TokenPair>, key: RemoteKey) -> bool {
    exists|i: int| 0 <= i < pairs.len() && remote_key(#[trigger] pairs[i]) == key
}

/// No two pairs of `pairs` are registered under the same key.
pub open spec fn distinct_keys(pairs: Seq<TokenPair>) -> bool {
    forall|i: int, j: int|
        0 <= i < j < pairs.len() ==> remote_key(#[trigger] pairs[i]) != remote_key(
            #[trigger] pairs[j],
        )
}

/// The mapping that `pairs` stands for: from each registered key to the
/// bytes of its local token.
pub open spec fn pairing_map(pairs: Seq<TokenPair>) -> Map<RemoteKey, Seq<u8>> {
    Map::new(
        |key: RemoteKey| claims(pairs, key),
        |key: RemoteKey|
            pairs[choose|i: int| 0 <= i < pairs.len() && remote_key(#[trigger] pairs[i]) == key]
                .local_token@,
    )
}

/// Where keys are distinct, the pair at any position is the one that the
/// mapping holds under its key.
proof fn lemma_map_at(pairs: Seq<TokenPair>, i: int)
    requires
        distinct_keys(pairs),
        0 <= i < pairs.len(),
    ensures
        pairing_map(pairs).contains_key(remote_key(pairs[i])),
        pairing_map(pairs)[remote_key(pairs[i])] == pairs[i].local_token@,
{
    let key = remote_key(pairs[i]);
    assert(claims(pairs, key));
    let j = choose|j: int| 0 <= j < pairs.len() && remote_key(#[trigger] pairs[j]) == key;
    assert(j == i) by {
        if j < i {
            assert(remote_key(pairs[j]) != remote_key(pairs[i]));
        } else if i < j {
            assert(remote_key(pairs[i]) != remote_key(pairs[j]));
        }
    }
}

/// Adding a pair under a key that is not yet claimed adds exactly that
/// entry to the mapping.
proof fn lemma_map_push(pairs: Seq<TokenPair>, pair: TokenPair)
    requires
        distinct_keys(pairs),
        !claims(pairs, remote_key(pair)),
    ensures
        distinct_keys(pairs.push(pair)),
        pairing_map(pairs.push(pair)) == pairing_map(pairs).insert(
            remote_key(pair),
            pair.local_token@,
        ),
{
    let more = pairs.push(pair);
    assert(distinct_keys(more)) by {
        assert forall|i: int, j: int| 0 <= i < j < more.len() implies remote_key(
            #[trigger] more[i],
        ) != remote_key(#[trigger] more[j]) by {
            if j < pairs.len() {
                assert(remote_key(pairs[i]) != remote_key(pairs[j]));
            } else {
                assert(more[i] == pairs[i]);
                if remote_key(pairs[i]) == remote_key(pair) {
                    assert(claims(pairs, remote_key(pair)));
                }
            }
        }
    }
    let grown = pairing_map(pairs).insert(remote_key(pair), pair.local_token@);
    assert forall|key: RemoteKey| pairing_map(more).contains_key(key) == grown.contains_key(
        key,
    ) by {
        if claims(more, key) {
            let i = choose|i: int| 0 <= i < more.len() && remote_key(#[trigger] more[i]) == key;
            if i < pairs.len() {
                assert(remote_key(pairs[i]) == key);
            }
        }
        if claims(pairs, key) {
            let i = choose|i: int| 0 <= i < pairs.len() && remote_key(#[trigger] pairs[i]) == key;
            assert(remote_key(more[i]) == key);
        }
        if key == remote_key(pair) {
            assert(remote_key(more[pairs.len() as int]) == key);
        }
    }
    assert forall|key: RemoteKey| pairing_map(more).contains_key(key) implies pairing_map(
        more,
    )[key] == grown[key] by {
        let i = choose|i: int| 0 <= i < more.len() && remote_key(#[trigger] more[i]) == key;
        lemma_map_at(more, i);
        if i < pairs.len() {
            assert(more[i] == pairs[i]);
            lemma_map_at(pairs, i);
        }
    }
    assert(pairing_map(more) =~= grown);
}

/// The registered token pairs: which remote token may mint which local
/// token. Every registered pair is valid, and a remote token of a domain is
/// linked to one local token only.
pub struct TokenPairs {
    pairs: Vec<TokenPair>,
}

impl View for TokenPairs {
    type V = Map<RemoteKey, Seq<u8>>;

    closed spec fn view(&self) -> Map<RemoteKey, Seq<u8>> {
        pairing_map(self.pairs@)
    }
}

impl TokenPairs {
    #[verifier::type_invariant]
    closed spec fn well_formed(&self) -> bool {
        &&& distinct_keys(self.pairs@)
        &&& forall|i: int| 0 <= i < self.pairs@.len() ==> (#[trigger] self.pairs@[i]).validate_spec()
    }

    /// Whether `pair` may be registered: it is valid, and its remote token
    /// is not linked to another local token already.
    pub open spec fn admits(&self, pair: TokenPair) -> bool {
        &&& pair.validate_spec()
        &&& self@.contains_key(remote_key(pair)) ==> self@[remote_key(pair)] == pair.local_token@
    }

    /// A registry without pairs.
    pub fn new() -> (registry: TokenPairs)
        ensures
            registry@ == Map::<RemoteKey, Seq<u8>>::empty(),
    {
        let registry = TokenPairs { pairs: Vec::new() };
        assert(registry@ =~= Map::<RemoteKey, Seq<u8>>::empty());
        registry
    }

    /// The position of the pair registered under the given key, if any.
    fn position(&self, remote_domain: u32, remote_token: &Pubkey) -> (found: Option<usize>)
        ensures
            match found {
                Some(i) => i < self.pairs@.len() && remote_key(self.pairs@[i as int]) == (
                    remote_domain,
                    remote_token@,
                ),
                None => !claims(self.pairs@, (remote_domain, remote_token@)),
            },
    {
        let mut i: usize = 0;
        while i < self.pairs.len()
            invariant
                i <= self.pairs@.len(),
                forall|j: int|
                    0 <= j < i ==> remote_key(#[trigger] self.pairs@[j]) != (
                        remote_domain,
                        remote_token@,
                    ),
            decreases self.pairs@.len() - i,
        {
            if self.pairs[i].remote_domain == remote_domain && self.pairs[i].remote_token
                == *remote_token {
                return Some(i);
            }
            i += 1;
        }
        None
    }

    /// Registers `pair`. A pair that is not valid, or whose remote token is
    /// already linked to another local token, is refused and the registry
    /// stays as it was.
    pub fn insert(&mut self, pair: TokenPair) -> (result: Result<(), TokenMinterError>)
        ensures
            old(self).admits(pair) ==> result == Ok::<(), TokenMinterError>(()) && final(self)@
                == old(self)@.insert(remote_key(pair), pair.local_token@),
            !old(self).admits(pair) ==> result == Err::<(), TokenMinterError>(
                TokenMinterError::InvalidPairing,
            ) && final(self)@ == old(self)@,
    {
        proof {
            use_type_invariant(&*self);
        }
        if !pair.validate() {
            return Err(TokenMinterError::InvalidPairing);
        }
        match self.position(pair.remote_domain, &pair.remote_token) {
            Some(i) => {
                proof {
                    lemma_map_at(self.pairs@, i as int);
                }
                if self.pairs[i].local_token == pair.local_token {
                    assert(self@ =~= self@.insert(remote_key(pair), pair.local_token@));
                    Ok(())
                } else {
                    Err(TokenMinterError::InvalidPairing)
                }
            },
            None => {
                proof {
                    lemma_map_push(self.pairs@, pair);
                }
                // The vector is taken out, grown and put back, so that the
                // registry is whole whenever it can be seen.
                let mut taken = TokenPairs::new();
                std::mem::swap(self, &mut taken);
                let TokenPairs { pairs: mut pairs } = taken;
                pairs.push(pair);
                *self = TokenPairs { pairs };
                Ok(())
            },
        }
    }

    /// Finds the local token that the given remote token of the given domain
    /// may mint. What is found is never the default identity, nor found
    /// under it.
    pub fn lookup(&self, remote_domain: u32, remote_token: &Pubkey) -> (result: Result<
        Pubkey,
        TokenMinterError,
    >)
        ensures
            self@.contains_key((remote_domain, remote_token@)) ==> result is Ok
                && result->Ok_0@ == self@[(remote_domain, remote_token@)],
            !self@.contains_key((remote_domain, remote_token@)) ==> result == Err::<
                Pubkey,
                TokenMinterError,
            >(TokenMinterError::PairingNotFound),
            result is Ok ==> !remote_token.is_default_spec() && !result->Ok_0.is_default_spec(),
    {
        proof {
            use_type_invariant(self);
        }
        match self.position(remote_domain, remote_token) {
            Some(i) => {
                proof {
                    lemma_map_at(self.pairs@, i as int);
                    assert(self.pairs@[i as int].validate_spec());
                }
                Ok(self.pairs[i].local_token)
            },
            None => Err(TokenMinterError::PairingNotFound),
        }
    }
}

} // verus!
