//! When each object's face partition is rebuilt, patched or left alone.
//!
//! Reordering a dense mesh takes a long time and drops its spatial grid, so
//! it is never done between two strokes: a stroke patches the packets it
//! touched. A wholesale rewrite of the active object still reorders, since
//! its face order is gone whatever the partition says. The reorder itself
//! marks the whole mesh changed; that mark is the reorder's own, and reading
//! it back as a new rewrite would reorder again every frame.

use vstd::prelude::*;

verus! {

/// What happens to one object's partition this frame.
#[derive(Clone, Copy, PartialEq, Eq, Debug, Structural)]
pub enum PartitionStep {
    /// The object has no faces: its partition is emptied.
    Clear,
    /// The faces are reordered into a new partition.
    Rebuild,
    /// The packets the stroke touched are patched.
    Follow,
    /// Nothing changes.
    Keep,
}

/// What the decision needs to know of one object.
#[derive(Clone, Copy, PartialEq, Eq, Debug, Structural)]
pub struct ObjectState {
    pub has_faces: bool,
    pub partition_empty: bool,
}

/// The step for one object.
pub open spec fn step_for(o: ObjectState, rewritten: bool, is_active: bool, dirty: bool) -> PartitionStep {
    if !o.has_faces {
        PartitionStep::Clear
    } else if o.partition_empty || (rewritten && is_active) {
        PartitionStep::Rebuild
    } else if is_active && dirty {
        PartitionStep::Follow
    } else {
        PartitionStep::Keep
    }
}

/// Whether a step reorders faces, which marks the mesh changed.
pub open spec fn reorders(s: PartitionStep) -> bool {
    s == PartitionStep::Rebuild
}

/// Plans this frame's partition work.
///
/// `rewritten` says the mesh was marked wholly changed, and `fresh` that the
/// last frame reordered, so that mark is its own. Returns the step for each
/// object and whether this frame reorders, which the next frame is given as
/// `fresh`.
pub fn plan_partitions(objects: &Vec<ObjectState>, active: usize, dirty: bool, rewritten: bool, fresh: bool) -> (r: (
    Vec<PartitionStep>,
    bool,
))
    ensures
        r.0@.len() == objects@.len(),
        forall|i: int|
            0 <= i < objects@.len() ==> r.0@[i] == step_for(
                #[trigger] objects@[i],
                rewritten && !fresh,
                i == active,
                dirty,
            ),
        r.1 == exists|i: int| 0 <= i < r.0@.len() && reorders(#[trigger] r.0@[i]),
{
    let news = rewritten && !fresh;
    let mut steps: Vec<PartitionStep> = Vec::new();
    let mut reordered = false;
    let mut i: usize = 0;
    while i < objects.len()
        invariant
            news == (rewritten && !fresh),
            i <= objects@.len(),
            steps@.len() == i,
            forall|j: int|
                0 <= j < i ==> steps@[j] == step_for(#[trigger] objects@[j], news, j == active, dirty),
            reordered == exists|j: int| 0 <= j < i && reorders(#[trigger] steps@[j]),
        decreases objects@.len() - i,
    {
        let o = objects[i];
        let step = if !o.has_faces {
            PartitionStep::Clear
        } else if o.partition_empty || (news && i == active) {
            PartitionStep::Rebuild
        } else if i == active && dirty {
            PartitionStep::Follow
        } else {
            PartitionStep::Keep
        };
        let ghost before = steps@;
        steps.push(step);
        proof {
            assert forall|j: int| 0 <= j < i + 1 implies steps@[j] == step_for(
                #[trigger] objects@[j],
                news,
                j == active,
                dirty,
            ) by {
                if j < i {
                    assert(steps@[j] == before[j]);
                }
            }
            if reordered {
                let j = choose|j: int| 0 <= j < i && reorders(#[trigger] before[j]);
                assert(steps@[j] == before[j]);
            }
            if step == PartitionStep::Rebuild {
                assert(reorders(steps@[i as int]));
            }
            if exists|j: int| 0 <= j < i + 1 && reorders(#[trigger] steps@[j]) {
                let j = choose|j: int| 0 <= j < i + 1 && reorders(#[trigger] steps@[j]);
                if j < i {
                    assert(steps@[j] == before[j]);
                }
            }
        }
        if step == PartitionStep::Rebuild {
            reordered = true;
        }
        i = i + 1;
    }
    (steps, reordered)
}

/// The mark a reorder leaves is not news: on the frame after a reorder, a
/// mesh whose only change is that mark is not reordered again unless some
/// object has lost its partition altogether.
pub proof fn a_reorder_does_not_feed_itself(
    o: ObjectState,
    rewritten: bool,
    fresh: bool,
    is_active: bool,
    dirty: bool,
)
    requires
        fresh,
        !o.partition_empty,
    ensures
        !reorders(step_for(o, rewritten && !fresh, is_active, dirty)),
{
}

/// An object without faces never keeps a partition, and an object whose
/// partition is gone always gets a new one.
pub proof fn every_object_ends_partitioned(o: ObjectState, rewritten: bool, is_active: bool, dirty: bool)
    ensures
        !o.has_faces ==> step_for(o, rewritten, is_active, dirty) == PartitionStep::Clear,
        o.has_faces && o.partition_empty ==> step_for(o, rewritten, is_active, dirty) == PartitionStep::Rebuild,
        !is_active && !o.partition_empty && o.has_faces ==> step_for(o, rewritten, is_active, dirty)
            == PartitionStep::Keep,
{
}

} // verus!
