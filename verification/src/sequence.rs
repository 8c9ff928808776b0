//! The player's activation sequence: the ordered, duplicate-free list of
//! node ids activated during the current level attempt, and the checks that
//! compare it against a level's required activation order.

use vstd::prelude::*;

verus! {

/// What recording one activation does to the sequence: a node id already
/// present is suppressed, a new one is appended.
pub open spec fn record_activation(s: Seq<usize>, node_id: usize) -> Seq<usize> {
    if s.contains(node_id) {
        s
    } else {
        s.push(node_id)
    }
}

/// The ordered list of node ids the player has activated this level attempt,
/// with duplicate suppression.
#[derive(Debug, Clone)]
pub struct PlayerActivationSequence {
    pub activated_node_ids: Vec<usize>,
}

impl View for PlayerActivationSequence {
    type V = Seq<usize>;

    open spec fn view(&self) -> Seq<usize> {
        self.activated_node_ids@
    }
}

impl Default for PlayerActivationSequence {
    fn default() -> (s: Self)
        ensures
            s@ == Seq::<usize>::empty(),
    {
        PlayerActivationSequence { activated_node_ids: Vec::new() }
    }
}

impl PlayerActivationSequence {
    /// Duplicate suppression keeps the recorded ids pairwise distinct.
    pub open spec fn wf(&self) -> bool {
        self@.no_duplicates()
    }

    /// Records an activated node, suppressing duplicates.
    pub fn add_activated_node(&mut self, node_id: usize)
        ensures
            final(self)@ == record_activation(old(self)@, node_id),
            old(self).wf() ==> final(self).wf(),
    {
        if !contains_id(&self.activated_node_ids, node_id) {
            let ghost prev = self@;
            self.activated_node_ids.push(node_id);
            proof {
                if prev.no_duplicates() {
                    assert forall|i: int, j: int|
                        0 <= i < self@.len() && 0 <= j < self@.len() && i != j implies self@[i]
                        != self@[j] by {
                        if i < prev.len() && j < prev.len() {
                        } else if i == prev.len() {
                            assert(prev[j] != node_id) by {
                                assert(!prev.contains(node_id));
                            }
                        } else {
                            assert(prev[i] != node_id) by {
                                assert(!prev.contains(node_id));
                            }
                        }
                    }
                }
            }
        }
    }

    /// Forgets every recorded activation, for a fresh level attempt.
    pub fn clear(&mut self)
        ensures
            final(self)@ == Seq::<usize>::empty(),
            final(self).wf(),
    {
        self.activated_node_ids.clear();
    }
}

/// Whether a list of node ids contains the given id.
pub(crate) fn contains_id(ids: &Vec<usize>, id: usize) -> (b: bool)
    ensures
        b == ids@.contains(id),
{
    let mut i: usize = 0;
    while i < ids.len()
        invariant
            i <= ids@.len(),
            forall|k: int| 0 <= k < i ==> ids@[k] != id,
        decreases ids@.len() - i,
    {
        if ids[i] == id {
            return true;
        }
        i += 1;
    }
    false
}

/// Recording the same node id twice changes the sequence exactly once.
pub proof fn lemma_record_activation_idempotent(s: Seq<usize>, node_id: usize)
    ensures
        record_activation(record_activation(s, node_id), node_id) == record_activation(s, node_id),
{
    if !s.contains(node_id) {
        assert(s.push(node_id)[s.len() as int] == node_id);
        assert(s.push(node_id).contains(node_id));
    }
}

/// Recording an activation never drops or reorders what was already
/// recorded: the old sequence stays at the front of the new one.
pub proof fn lemma_record_activation_preserves_history(s: Seq<usize>, node_id: usize)
    ensures
        s.is_prefix_of(record_activation(s, node_id)),
{
    if s.contains(node_id) {
        assert(s =~= s.subrange(0, s.len() as int));
    } else {
        assert(s =~= s.push(node_id).subrange(0, s.len() as int));
    }
}

/// The player's order matches the required one when the whole required
/// sequence stands, in order, at the front of the player's sequence.
pub fn sequence_matches_required(player: &Vec<usize>, required: &Vec<usize>) -> (ok: bool)
    ensures
        ok == required@.is_prefix_of(player@),
{
    if required.len() > player.len() {
        return false;
    }
    let mut i: usize = 0;
    while i < required.len()
        invariant
            i <= required@.len() <= player@.len(),
            forall|k: int| 0 <= k < i ==> player@[k] == required@[k],
        decreases required@.len() - i,
    {
        if player[i] != required[i] {
            proof {
                assert(player@.subrange(0, required@.len() as int)[i as int] != required@[
                    i as int
                ]);
            }
            return false;
        }
        i += 1;
    }
    proof {
        assert(required@ =~= player@.subrange(0, required@.len() as int));
    }
    true
}

/// The player has deviated when the recorded sequence is not itself a
/// prefix of the required one: some recorded id is out of order, or the
/// player has gone past the required sequence's end.
pub fn sequence_deviates(player: &Vec<usize>, required: &Vec<usize>) -> (dev: bool)
    ensures
        dev == !player@.is_prefix_of(required@),
{
    if player.len() > required.len() {
        return true;
    }
    let mut i: usize = 0;
    while i < player.len()
        invariant
            i <= player@.len() <= required@.len(),
            forall|k: int| 0 <= k < i ==> required@[k] == player@[k],
        decreases player@.len() - i,
    {
        if player[i] != required[i] {
            proof {
                assert(required@.subrange(0, player@.len() as int)[i as int] != player@[i as int]);
            }
            return true;
        }
        i += 1;
    }
    proof {
        assert(player@ =~= required@.subrange(0, player@.len() as int));
    }
    false
}

/// A run that both matches the required sequence and has not deviated from
/// it is exactly the required sequence.
pub proof fn lemma_exact_run(player: Seq<usize>, required: Seq<usize>)
    requires
        required.is_prefix_of(player),
        player.is_prefix_of(required),
    ensures
        player == required,
{
    assert(player =~= required);
}

} // verus!
