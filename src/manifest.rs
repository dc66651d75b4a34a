use vstd::prelude::*;

verus! {

/// The closed set of builtin actor kinds.
#[derive(Clone, Copy, Debug, PartialEq, Eq, Structural)]
pub enum ActorKind {
    System,
    Init,
    Cron,
    Account,
    Power,
    Miner,
    Market,
    PaymentChannel,
    Multisig,
    Reward,
    VerifiedRegistry,
}

/// The map that a sequence of (key, value) pairs stands for: a later pair
/// replaces an earlier one with the same key.
pub open spec fn latest_map<V>(s: Seq<(Seq<u8>, V)>) -> Map<Seq<u8>, V>
    decreases s.len(),
{
    if s.len() == 0 {
        Map::empty()
    } else {
        latest_map(s.drop_last()).insert(s.last().0, s.last().1)
    }
}

/// Pairs at or after `i` do not hold key `k`, so the first `i` pairs
/// already decide what the map holds at `k`.
pub proof fn lemma_latest_map_tail<V>(s: Seq<(Seq<u8>, V)>, i: int, k: Seq<u8>)
    requires
        0 <= i <= s.len(),
        forall|j: int| i <= j < s.len() ==> s[j].0 != k,
    ensures
        latest_map(s).contains_key(k) == latest_map(s.take(i)).contains_key(k),
        latest_map(s).contains_key(k) ==> latest_map(s)[k] == latest_map(s.take(i))[k],
    decreases s.len(),
{
    if s.len() > i {
        assert(s.drop_last().take(i) =~= s.take(i));
        lemma_latest_map_tail(s.drop_last(), i, k);
    } else {
        assert(s.take(i) =~= s);
    }
}

/// Byte-wise equality of two byte strings.
pub fn bytes_equal(a: &Vec<u8>, b: &Vec<u8>) -> (r: bool)
    ensures
        r == (a@ == b@),
{
    if a.len() != b.len() {
        return false;
    }
    let mut i: usize = 0;
    while i < a.len()
        invariant
            a.len() == b.len(),
            0 <= i <= a.len(),
            forall|j: int| 0 <= j < i ==> a@[j] == b@[j],
        decreases a.len() - i,
    {
        if a[i] != b[i] {
            return false;
        }
        i = i + 1;
    }
    assert(a@ =~= b@);
    true
}

/// The table from code identities (the bytes of a code's content hash) to
/// actor kinds.
#[derive(Clone, Debug)]
pub struct Manifest {
    entries: Vec<(Vec<u8>, ActorKind)>,
}

/// The keys of `pairs` as byte sequences.
pub open spec fn pairs_view<V>(pairs: Seq<(Vec<u8>, V)>) -> Seq<(Seq<u8>, V)> {
    pairs.map_values(|e: (Vec<u8>, V)| (e.0@, e.1))
}

/// The index of the last pair whose key is `key`, which is the pair that
/// decides what the map of `pairs` holds at `key`.
pub fn find_latest<V>(pairs: &Vec<(Vec<u8>, V)>, key: &Vec<u8>) -> (r: Option<usize>)
    ensures
        match r {
            Some(i) => i < pairs.len() && latest_map(pairs_view(pairs@)).contains_key(key@)
                && latest_map(pairs_view(pairs@))[key@] == pairs@[i as int].1,
            None => !latest_map(pairs_view(pairs@)).contains_key(key@),
        },
{
    let ghost s = pairs_view(pairs@);
    let mut i: usize = pairs.len();
    while i > 0
        invariant
            s == pairs_view(pairs@),
            s.len() == pairs.len(),
            0 <= i <= s.len(),
            forall|j: int| i <= j < s.len() ==> s[j].0 != key@,
        decreases i,
    {
        if bytes_equal(&pairs[i - 1].0, key) {
            proof {
                lemma_latest_map_tail(s, i as int, key@);
                let t = s.take(i as int);
                assert(t.drop_last() =~= s.take(i - 1));
                assert(t.last() == s[i - 1]);
            }
            return Some(i - 1);
        }
        i = i - 1;
    }
    proof {
        lemma_latest_map_tail(s, 0, key@);
        assert(s.take(0) =~= Seq::<(Seq<u8>, V)>::empty());
    }
    None
}

impl Manifest {
    pub closed spec fn pairs(&self) -> Seq<(Seq<u8>, ActorKind)> {
        pairs_view(self.entries@)
    }

    /// The table as a map from code identity to kind.
    pub open spec fn view(&self) -> Map<Seq<u8>, ActorKind> {
        latest_map(self.pairs())
    }

    /// An empty table.
    pub fn new() -> (r: Manifest)
        ensures
            r.view() == Map::<Seq<u8>, ActorKind>::empty(),
    {
        let r = Manifest { entries: Vec::new() };
        assert(pairs_view(r.entries@) =~= Seq::empty());
        r
    }

    /// Maps `code` to `kind`, replacing what it was mapped to before.
    pub fn insert(&mut self, code: Vec<u8>, kind: ActorKind)
        ensures
            final(self).view() == old(self).view().insert(code@, kind),
    {
        let ghost c = code@;
        self.entries.push((code, kind));
        assert(pairs_view(self.entries@).drop_last() =~= pairs_view(old(self).entries@));
        assert(pairs_view(self.entries@).last() == (c, kind));
    }

    /// The kind that `code` is mapped to, if any.
    pub fn lookup(&self, code: &Vec<u8>) -> (r: Option<ActorKind>)
        ensures
            r == (if self.view().contains_key(code@) {
                Some(self.view()[code@])
            } else {
                None
            }),
    {
        match find_latest(&self.entries, code) {
            Some(i) => Some(self.entries[i].1),
            None => None,
        }
    }
}

} // verus!
