use vstd::prelude::*;
use crate::artifact::CompiledArtifact;

verus! {

/// A mailbox that holds at most one pending artifact. A publish overwrites
/// whatever was not yet taken; a take empties it. The build thread and the
/// render loop share it behind a lock; neither ever waits on the other for
/// longer than one of these calls.
#[derive(Debug)]
pub struct ArtifactSlot {
    pending: Option<CompiledArtifact>,
}

impl View for ArtifactSlot {
    type V = Option<CompiledArtifact>;

    closed spec fn view(&self) -> Option<CompiledArtifact> {
        self.pending
    }
}

impl ArtifactSlot {
    pub fn new() -> (r: Self)
        ensures
            r@ is None,
    {
        ArtifactSlot { pending: None }
    }

    /// Stores `artifact`, dropping any artifact that was not taken yet.
    pub fn publish(&mut self, artifact: CompiledArtifact)
        ensures
            final(self)@ == Some(artifact),
            final(self)@ == slot_step(old(self)@, SlotOp::Publish(artifact)),
    {
        self.pending = Some(artifact);
    }

    /// Removes and returns the pending artifact, if there is one.
    pub fn take(&mut self) -> (r: Option<CompiledArtifact>)
        ensures
            r == old(self)@,
            final(self)@ is None,
            final(self)@ == slot_step(old(self)@, SlotOp::Take),
    {
        self.pending.take()
    }

    pub fn is_empty(&self) -> (r: bool)
        ensures
            r == (self@ is None),
    {
        self.pending.is_none()
    }
}

/// One operation on a slot, for reasoning about runs of them.
pub enum SlotOp {
    Publish(CompiledArtifact),
    Take,
}

/// The slot's contents after `op`: `publish` and `take` above change it so.
pub open spec fn slot_step(held: Option<CompiledArtifact>, op: SlotOp) -> Option<CompiledArtifact> {
    match op {
        SlotOp::Publish(a) => Some(a),
        SlotOp::Take => None,
    }
}

/// The slot's contents after `ops`, applied in order to a new slot.
pub open spec fn slot_after(ops: Seq<SlotOp>) -> Option<CompiledArtifact>
    decreases ops.len(),
{
    if ops.len() == 0 {
        None
    } else {
        slot_step(slot_after(ops.drop_last()), ops.last())
    }
}

/// The position in `ops` of the publish whose artifact the slot holds
/// after `ops`, if it holds one.
pub open spec fn held_publish(ops: Seq<SlotOp>) -> Option<int> {
    if ops.len() == 0 {
        None
    } else {
        match ops.last() {
            SlotOp::Publish(_) => Some(ops.len() - 1),
            SlotOp::Take => None,
        }
    }
}

/// What the take at position `k` of `ops` returns.
pub open spec fn taken_by(ops: Seq<SlotOp>, k: int) -> Option<CompiledArtifact> {
    slot_after(ops.take(k))
}

/// The slot holds exactly the artifact of the publish that `held_publish`
/// names, and nothing when it names none.
pub proof fn lemma_held_publish_names_contents(ops: Seq<SlotOp>)
    ensures
        match held_publish(ops) {
            Some(i) => 0 <= i < ops.len() && ops[i] is Publish && slot_after(ops) == Some(
                ops[i]->Publish_0,
            ),
            None => slot_after(ops) is None,
        },
{
}

/// In any run of publishes and takes on a new slot, a published artifact is
/// handed out by at most one take: the operation right after its publish,
/// when that is a take. When the next operation is another publish, the
/// artifact is superseded and no take ever returns it; when nothing follows,
/// the slot still holds it.
pub proof fn lemma_publish_delivered_once_or_superseded(ops: Seq<SlotOp>, j: int)
    requires
        0 <= j < ops.len(),
        ops[j] is Publish,
    ensures
        forall|k: int|
            0 <= k < ops.len() && ops[k] is Take ==> (#[trigger] held_publish(ops.take(k)) == Some(j)
                <==> k == j + 1),
        j + 1 < ops.len() && ops[j + 1] is Take ==> taken_by(ops, j + 1) == Some(
            ops[j]->Publish_0,
        ),
        j + 1 < ops.len() && ops[j + 1] is Publish ==> forall|k: int|
            0 <= k < ops.len() && ops[k] is Take ==> #[trigger] held_publish(ops.take(k)) != Some(j),
        j + 1 == ops.len() ==> slot_after(ops) == Some(ops[j]->Publish_0),
{
    assert forall|k: int| 0 <= k < ops.len() && ops[k] is Take implies (#[trigger] held_publish(
        ops.take(k),
    ) == Some(j) <==> k == j + 1) by {
        if k > 0 {
            assert(ops.take(k).last() == ops[k - 1]);
        }
    }
    if j + 1 < ops.len() {
        let p = ops.take(j + 1);
        assert(p.last() == ops[j]);
    }
}

/// After a publish, the first take returns its artifact, and every further
/// take before the next publish returns nothing.
pub proof fn lemma_take_after_publish(ops: Seq<SlotOp>, j: int, k: int)
    requires
        0 <= j < k < ops.len(),
        ops[j] is Publish,
        forall|i: int| j < i <= k ==> #[trigger] ops[i] is Take,
    ensures
        taken_by(ops, k) == if k == j + 1 {
            Some(ops[j]->Publish_0)
        } else {
            None::<CompiledArtifact>
        },
{
    let p = ops.take(k);
    assert(p.last() == ops[k - 1]);
}

} // verus!
