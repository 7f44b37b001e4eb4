use vstd::prelude::*;
use vstd::hash_map::StringHashMap;

verus! {

/// The entries of `entries` that are still needed at time `now`: those whose
/// token has not yet expired by itself.
pub open spec fn swept(entries: Map<Seq<char>, i64>, now: int) -> Map<Seq<char>, i64> {
    Map::new(
        |token: Seq<char>| entries.contains_key(token) && entries[token] > now,
        |token: Seq<char>| entries[token],
    )
}

/// Whether `token` is one of `tokens`.
spec fn listed(tokens: Seq<String>, token: Seq<char>) -> bool {
    exists|i: int| 0 <= i < tokens.len() && #[trigger] tokens[i]@ == token
}

/// Walking one token further lists that token and nothing else.
proof fn lemma_listed_step(tokens: Seq<String>, i: int, token: Seq<char>)
    requires
        0 <= i < tokens.len(),
    ensures
        listed(tokens.take(i + 1), token) <==> listed(tokens.take(i), token) || tokens[i]@ == token,
{
    if listed(tokens.take(i + 1), token) {
        let j = choose|j: int|
            0 <= j < tokens.take(i + 1).len() && #[trigger] tokens.take(i + 1)[j]@ == token;
        if j < i {
            assert(tokens.take(i)[j]@ == token);
        }
    }
    if listed(tokens.take(i), token) {
        let j = choose|j: int|
            0 <= j < tokens.take(i).len() && #[trigger] tokens.take(i)[j]@ == token;
        assert(tokens.take(i + 1)[j]@ == token);
    }
    if tokens[i]@ == token {
        assert(tokens.take(i + 1)[i]@ == token);
    }
}

/// The tokens that were revoked before their time, each with the expiry
/// time it carries.
pub struct RevocationStore {
    entries: StringHashMap<i64>,
    /// Every token of `entries`, for walking them; a token that has left
    /// `entries` may linger here until the next sweep.
    tokens: Vec<String>,
}

impl View for RevocationStore {
    type V = Map<Seq<char>, i64>;

    closed spec fn view(&self) -> Map<Seq<char>, i64> {
        self.entries@
    }
}

impl RevocationStore {
    #[verifier::type_invariant]
    spec fn every_entry_listed(&self) -> bool {
        forall|token: Seq<char>| #[trigger]
            self.entries@.contains_key(token) ==> listed(self.tokens@, token)
    }

    /// A store with no entry.
    pub fn new() -> (store: Self)
        ensures
            store@ == Map::<Seq<char>, i64>::empty(),
    {
        Self { entries: StringHashMap::new(), tokens: Vec::new() }
    }

    /// Whether `token` has been revoked and not yet swept.
    pub fn contains(&self, token: &str) -> (revoked: bool)
        ensures
            revoked == self@.contains_key(token@),
    {
        self.entries.contains_key(token)
    }

    /// The expiry time recorded for `token`, if it is in the store.
    pub fn get(&self, token: &str) -> (expires_at: Option<i64>)
        ensures
            expires_at == if self@.contains_key(token@) {
                Some(self@[token@])
            } else {
                None
            },
    {
        match self.entries.get(token) {
            Some(expires_at) => Some(*expires_at),
            None => None,
        }
    }

    /// The number of entries.
    pub fn len(&self) -> (entries: usize)
        ensures
            entries == self@.len(),
    {
        self.entries.len()
    }

    /// Whether the store has no entry.
    pub fn is_empty(&self) -> (empty: bool)
        ensures
            empty == (self@.len() == 0),
    {
        self.entries.len() == 0
    }

    /// Records `token` as revoked until `expires_at`. A token that is
    /// already there gets the new expiry time.
    pub fn insert(&mut self, token: &str, expires_at: i64)
        ensures
            final(self)@ == old(self)@.insert(token@, expires_at),
    {
        let mut taken = RevocationStore::new();
        core::mem::swap(self, &mut taken);
        proof {
            use_type_invariant(&taken);
        }
        let RevocationStore { mut entries, mut tokens } = taken;
        let ghost listed_before = tokens@;
        if !entries.contains_key(token) {
            tokens.push(token.to_owned());
        }
        entries.insert(token.to_owned(), expires_at);
        proof {
            assert forall|other: Seq<char>| #[trigger]
                entries@.contains_key(other) implies listed(tokens@, other) by {
                if other == token@ && !listed(listed_before, other) {
                    assert(tokens@[tokens.len() - 1]@ == other);
                } else {
                    let i = choose|i: int|
                        0 <= i < listed_before.len() && #[trigger] listed_before[i]@ == other;
                    assert(tokens@[i]@ == other);
                }
            }
        }
        *self = RevocationStore { entries, tokens };
    }

    /// Drops every entry whose token has expired by `now`, that is, whose
    /// expiry time is `now` or earlier.
    pub fn sweep(&mut self, now: i64)
        ensures
            final(self)@ == swept(old(self)@, now as int),
    {
        let mut taken = RevocationStore::new();
        core::mem::swap(self, &mut taken);
        proof {
            use_type_invariant(&taken);
        }
        let RevocationStore { mut entries, tokens } = taken;
        let ghost before = entries@;
        let mut kept: Vec<String> = Vec::new();
        let mut i: usize = 0;
        while i < tokens.len()
            invariant
                i <= tokens.len(),
                forall|token: Seq<char>| #[trigger]
                    before.contains_key(token) ==> listed(tokens@, token),
                forall|token: Seq<char>| #[trigger]
                    entries@.contains_key(token) <==> before.contains_key(token) && (before[token]
                        > now || !listed(tokens@.take(i as int), token)),
                forall|token: Seq<char>| #[trigger]
                    entries@.contains_key(token) ==> entries@[token] == before[token],
                forall|token: Seq<char>| #[trigger]
                    entries@.contains_key(token) && listed(tokens@.take(i as int), token)
                        ==> listed(kept@, token),
            decreases tokens.len() - i,
        {
            let token = &tokens[i];
            let ghost kept_before = kept@;
            let expires_at = match entries.get(token.as_str()) {
                Some(expires_at) => Some(*expires_at),
                None => None,
            };
            match expires_at {
                Some(expires_at) => {
                    if expires_at <= now {
                        entries.remove(token.as_str());
                    } else {
                        kept.push(token.clone());
                    }
                },
                None => {},
            }
            proof {
                assert forall|other: Seq<char>|
                    listed(tokens@.take(i + 1), other) <==> listed(tokens@.take(i as int), other)
                        || tokens@[i as int]@ == other by {
                    lemma_listed_step(tokens@, i as int, other);
                }
                assert forall|other: Seq<char>| #[trigger]
                    entries@.contains_key(other) && listed(
                        tokens@.take(i + 1),
                        other,
                    ) implies listed(kept@, other) by {
                    if tokens@[i as int]@ == other {
                        assert(kept@[kept.len() - 1]@ == other);
                    } else {
                        assert(listed(kept_before, other));
                        let j = choose|j: int|
                            0 <= j < kept_before.len() && #[trigger] kept_before[j]@ == other;
                        assert(kept@[j]@ == other);
                    }
                }
            }
            i += 1;
        }
        proof {
            assert(tokens@.take(tokens.len() as int) == tokens@);
            assert(entries@ =~= swept(before, now as int));
        }
        *self = RevocationStore { entries, tokens: kept };
    }
}

} // verus!
