use vstd::prelude::*;
use crate::blackjack::{MutationReason, MAX_BLACKJACK_PLAYERS};
use crate::chain::ChainId;
use crate::state::BlackjackChain;

verus! {

broadcast use vstd::std_specs::hash::group_hash_axioms;

/// The chains in the bucket for occupancy `n`, in registration order (empty
/// where there is no bucket).
pub open spec fn bucket(set: Map<u8, Vec<ChainId>>, n: u8) -> Seq<ChainId> {
    if set.contains_key(n) { set[n]@ } else { Seq::empty() }
}

/// `s` without `c`.
pub open spec fn without_chain(s: Seq<ChainId>, c: ChainId) -> Seq<ChainId>
    decreases s.len(),
{
    if s.len() == 0 {
        s
    } else if s.last() == c {
        without_chain(s.drop_last(), c)
    } else {
        without_chain(s.drop_last(), c).push(s.last())
    }
}

/// `s` with `c` added at the end, unless it is there already.
pub open spec fn with_chain(s: Seq<ChainId>, c: ChainId) -> Seq<ChainId> {
    if s.contains(c) { s } else { s.push(c) }
}

/// The first chain of the lowest non-empty bucket from `n` up, below a full table.
pub open spec fn first_available(set: Map<u8, Vec<ChainId>>, n: nat) -> Option<ChainId>
    decreases MAX_BLACKJACK_PLAYERS - n,
{
    if n >= MAX_BLACKJACK_PLAYERS {
        None
    } else if bucket(set, n as u8).len() > 0 {
        Some(bucket(set, n as u8)[0])
    } else {
        first_available(set, n + 1)
    }
}

/// Bucket `k` after moving chain `c` to bucket `n` for `reason`: `c` is first
/// taken out of the bucket it is tracked in, if any (unless it stays there);
/// anything but a removal then adds it to bucket `n`, where it is not already.
pub open spec fn bucket_after(
    set: Map<u8, Vec<ChainId>>,
    status: Map<u64, u8>,
    c: ChainId,
    n: u8,
    reason: MutationReason,
    k: u8,
) -> Seq<ChainId> {
    let stays = reason != MutationReason::Remove && k == n;
    let taken = if status.contains_key(c.id) && status[c.id] == k && !stays {
        without_chain(bucket(set, k), c)
    } else {
        bucket(set, k)
    };
    if reason != MutationReason::Remove && k == n { with_chain(taken, c) } else { taken }
}

/// Each chain is in at most one bucket, at most once, and exactly in the bucket
/// that it is tracked in.
pub open spec fn registry_wf(set: Map<u8, Vec<ChainId>>, status: Map<u64, u8>) -> bool {
    &&& forall|k: u8| #[trigger] bucket(set, k).no_duplicates()
    &&& forall|k: u8, c: ChainId| #[trigger] bucket(set, k).contains(c)
        ==> status.contains_key(c.id) && status[c.id] == k
    &&& forall|id: u64| #[trigger] status.contains_key(id) ==> bucket(set, status[id]).contains(ChainId { id })
}

proof fn lemma_push_contains(s: Seq<ChainId>, y: ChainId)
    ensures
        forall|x: ChainId| #[trigger] s.push(y).contains(x) <==> s.contains(x) || x == y,
        s.no_duplicates() && !s.contains(y) ==> s.push(y).no_duplicates(),
{
    let ws = s.push(y);
    assert forall|x: ChainId| #[trigger] ws.contains(x) <==> s.contains(x) || x == y by {
        if ws.contains(x) {
            let i = choose|i: int| 0 <= i < ws.len() && ws[i] == x;
            if i < s.len() {
                assert(s[i] == x);
            }
        }
        if s.contains(x) {
            let i = choose|i: int| 0 <= i < s.len() && s[i] == x;
            assert(ws[i] == x);
        }
        if x == y {
            assert(ws[s.len() as int] == x);
        }
    }
    if s.no_duplicates() && !s.contains(y) {
        assert forall|i: int, j: int| 0 <= i < ws.len() && 0 <= j < ws.len() && i != j implies ws[i] != ws[j] by {
            if i == s.len() {
                assert(s[j] == ws[j]);
            } else if j == s.len() {
                assert(s[i] == ws[i]);
            }
        }
    }
}

proof fn lemma_without_chain(s: Seq<ChainId>, c: ChainId)
    ensures
        forall|x: ChainId| #[trigger] without_chain(s, c).contains(x) <==> s.contains(x) && x != c,
        s.no_duplicates() ==> without_chain(s, c).no_duplicates(),
    decreases s.len(),
{
    if s.len() > 0 {
        let p = s.drop_last();
        lemma_without_chain(p, c);
        assert(p.push(s.last()) =~= s);
        lemma_push_contains(p, s.last());
        if s.no_duplicates() {
            assert(p.no_duplicates());
            assert(!p.contains(s.last())) by {
                if p.contains(s.last()) {
                    let i = choose|i: int| 0 <= i < p.len() && p[i] == s.last();
                    assert(s[i] == s[s.len() - 1]);
                }
            }
        }
        if s.last() != c {
            lemma_push_contains(without_chain(p, c), s.last());
        }
    }
}

proof fn lemma_with_chain(s: Seq<ChainId>, c: ChainId)
    ensures
        forall|x: ChainId| #[trigger] with_chain(s, c).contains(x) <==> s.contains(x) || x == c,
        s.no_duplicates() ==> with_chain(s, c).no_duplicates(),
{
    lemma_push_contains(s, c);
}

/// Moving a chain keeps the registry well formed.
pub proof fn lemma_bucket_after_wf(
    set: Map<u8, Vec<ChainId>>,
    status: Map<u64, u8>,
    c: ChainId,
    n: u8,
    reason: MutationReason,
    new_set: Map<u8, Vec<ChainId>>,
)
    requires
        registry_wf(set, status),
        forall|k: u8| #[trigger] bucket(new_set, k) == bucket_after(set, status, c, n, reason, k),
    ensures
        registry_wf(new_set, if reason == MutationReason::Remove { status.remove(c.id) } else { status.insert(c.id, n) }),
{
    let new_status = if reason == MutationReason::Remove { status.remove(c.id) } else { status.insert(c.id, n) };
    assert forall|k: u8| #[trigger] bucket(new_set, k).no_duplicates() && (forall|x: ChainId|
        #[trigger] bucket(new_set, k).contains(x) <==> if reason != MutationReason::Remove && k == n {
            (bucket(set, k).contains(x) && !(x == c && status.contains_key(c.id) && status[c.id] == k)) || x == c
        } else {
            bucket(set, k).contains(x) && !(x == c && status.contains_key(c.id) && status[c.id] == k)
        }) by {
        lemma_without_chain(bucket(set, k), c);
        let stays = reason != MutationReason::Remove && k == n;
        let taken = if status.contains_key(c.id) && status[c.id] == k && !stays { without_chain(bucket(set, k), c) } else { bucket(set, k) };
        lemma_with_chain(taken, c);
    }
    assert forall|k: u8, x: ChainId| #[trigger] bucket(new_set, k).contains(x)
        implies new_status.contains_key(x.id) && new_status[x.id] == k by {
        assert(bucket(new_set, k).no_duplicates());
        if x != c {
            assert(bucket(set, k).contains(x));
            assert(x.id != c.id);
        } else if bucket(set, k).contains(c) {
            assert(status[c.id] == k);
        }
    }
    assert forall|id: u64| #[trigger] new_status.contains_key(id) implies bucket(new_set, new_status[id]).contains(ChainId { id }) by {
        if id != c.id {
            assert(bucket(new_set, status[id]).no_duplicates());
            assert(bucket(set, status[id]).contains(ChainId { id }));
            assert(ChainId { id } != c);
        } else {
            assert(bucket(new_set, n).no_duplicates());
            assert(bucket(new_set, n).contains(c));
            assert(c == ChainId { id });
        }
    }
}

fn copy_without(v: &Vec<ChainId>, c: ChainId) -> (r: Vec<ChainId>)
    ensures
        r@ == without_chain(v@, c),
{
    let mut out: Vec<ChainId> = Vec::new();
    let mut i: usize = 0;
    while i < v.len()
        invariant
            i <= v@.len(),
            out@ == without_chain(v@.subrange(0, i as int), c),
        decreases v@.len() - i,
    {
        assert(v@.subrange(0, i as int + 1).drop_last() =~= v@.subrange(0, i as int));
        let x = v[i];
        if x != c {
            out.push(x);
        }
        i = i + 1;
    }
    assert(v@.subrange(0, i as int) =~= v@);
    out
}

fn has_chain(v: &Vec<ChainId>, c: ChainId) -> (r: bool)
    ensures
        r == v@.contains(c),
{
    let mut i: usize = 0;
    while i < v.len()
        invariant
            i <= v@.len(),
            forall|j: int| 0 <= j < i ==> v@[j] != c,
        decreases v@.len() - i,
    {
        if v[i] == c {
            return true;
        }
        i = i + 1;
    }
    false
}

fn bucket_copy(set: &std::collections::HashMap<u8, Vec<ChainId>>, n: u8) -> (r: Vec<ChainId>)
    ensures
        r@ == bucket(set@, n),
{
    match set.get(&n) {
        Some(v) => v.clone(),
        None => Vec::new(),
    }
}

impl BlackjackChain {
    /// The first play chain of the lowest occupancy bucket that is not full.
    pub fn search_available_play_chain(&self) -> (r: Option<ChainId>)
        ensures
            r == first_available(self.play_chain_set@, 0),
    {
        let mut n: u8 = 0;
        while n < MAX_BLACKJACK_PLAYERS
            invariant
                n <= MAX_BLACKJACK_PLAYERS,
                first_available(self.play_chain_set@, n as nat) == first_available(self.play_chain_set@, 0),
            decreases MAX_BLACKJACK_PLAYERS - n,
        {
            let v = bucket_copy(&self.play_chain_set, n);
            if v.len() > 0 {
                return Some(v[0]);
            }
            n = n + 1;
        }
        None
    }

    /// Moves a play chain to the bucket for occupancy `player_number`: it is first
    /// taken out of the bucket it is tracked in, if any; anything but a removal
    /// then adds it (once) and tracks it there, and a removal stops tracking it.
    /// The registry stays well formed: each chain in exactly the bucket it is
    /// tracked in, at most once.
    pub fn play_chain_manager(&mut self, chain_id: ChainId, player_number: u8, status: MutationReason)
        ensures
            forall|k: u8| #[trigger] bucket(final(self).play_chain_set@, k) == bucket_after(
                old(self).play_chain_set@,
                old(self).play_chain_status@,
                chain_id,
                player_number,
                status,
                k,
            ),
            status == MutationReason::Remove ==> final(self).play_chain_status@ == old(self).play_chain_status@.remove(chain_id.id),
            status != MutationReason::Remove ==> final(self).play_chain_status@ == old(self).play_chain_status@.insert(chain_id.id, player_number),
            registry_wf(old(self).play_chain_set@, old(self).play_chain_status@)
                ==> registry_wf(final(self).play_chain_set@, final(self).play_chain_status@),
            final(self).chain_id == old(self).chain_id,
            final(self).owner == old(self).owner,
            final(self).parameters == old(self).parameters,
            final(self).profile == old(self).profile,
            final(self).user_status == old(self).user_status,
            final(self).single_player_game == old(self).single_player_game,
            final(self).game == old(self).game,
            final(self).blackjack_token_pool == old(self).blackjack_token_pool,
            final(self).bankroll == old(self).bankroll,
    {
        match self.play_chain_status.get(&chain_id.id) {
            Some(old_state) => {
                let b = *old_state;
                if status == MutationReason::Remove || b != player_number {
                    let v = bucket_copy(&self.play_chain_set, b);
                    let kept = copy_without(&v, chain_id);
                    self.play_chain_set.insert(b, kept);
                }
            },
            None => {},
        }
        if status != MutationReason::Remove {
            let mut v = bucket_copy(&self.play_chain_set, player_number);
            if !has_chain(&v, chain_id) {
                v.push(chain_id);
            }
            self.play_chain_set.insert(player_number, v);
            self.play_chain_status.insert(chain_id.id, player_number);
        } else {
            let _ = self.play_chain_status.remove(&chain_id.id);
        }
        assert forall|k: u8| #[trigger] bucket(self.play_chain_set@, k) == bucket_after(
            old(self).play_chain_set@,
            old(self).play_chain_status@,
            chain_id,
            player_number,
            status,
            k,
        ) by {}
        proof {
            if registry_wf(old(self).play_chain_set@, old(self).play_chain_status@) {
                lemma_bucket_after_wf(
                    old(self).play_chain_set@,
                    old(self).play_chain_status@,
                    chain_id,
                    player_number,
                    status,
                    self.play_chain_set@,
                );
            }
        }
    }
}

} // verus!
