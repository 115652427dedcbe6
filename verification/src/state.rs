//! Per-render-pass element state: the layout identifiers of the
//! overlay's children, handed out by the host layout tree when layout is
//! requested and read back at paint time.
//!
//! Child layout identifiers are opaque handles into the host-owned
//! layout tree; this crate treats them as plain numbers. They are kept in
//! a `smallvec::SmallVec`, reached through trusted wrappers.

use vstd::prelude::*;

use smallvec::SmallVec;

verus! {

/// The `smallvec::SmallVec` holding the child layout identifiers.
/// Verus refuses a declaration of `SmallVec` itself (its `Array` bound is
/// an outside trait), so the collection is held opaquely here and reached
/// through the trusted wrappers below.
#[verifier::external_body]
pub struct ChildIds {
    ids: SmallVec<[u64; 4]>,
}

/// The sequence of child layout identifiers the collection holds, in
/// order.
pub uninterp spec fn child_id_seq(v: ChildIds) -> Seq<u64>;

/// Relies on smallvec::SmallVec::new: a freshly constructed vector is
/// empty.
#[verifier::external_body]
fn ids_new() -> (r: ChildIds)
    ensures
        child_id_seq(r) == Seq::<u64>::empty(),
{
    ChildIds { ids: SmallVec::new() }
}

/// Relies on smallvec::SmallVec::push: appends one item at the back.
#[verifier::external_body]
fn ids_push(v: &mut ChildIds, id: u64)
    ensures
        child_id_seq(*final(v)) == child_id_seq(*old(v)).push(id),
{
    v.ids.push(id)
}

/// Relies on smallvec::SmallVec::len: the number of items held.
#[verifier::external_body]
fn ids_len(v: &ChildIds) -> (r: usize)
    ensures
        r == child_id_seq(*v).len(),
{
    v.ids.len()
}

/// Relies on smallvec::SmallVec's slice view (its Deref impl): the item
/// at position `i`.
#[verifier::external_body]
fn ids_at(v: &ChildIds, i: usize) -> (r: u64)
    requires
        i < child_id_seq(*v).len(),
    ensures
        r == child_id_seq(*v)[i as int],
{
    v.ids[i]
}

/// The state an overlay keeps between layout and paint: one layout
/// identifier per child, in the order the children were laid out.
pub struct OverlayState {
    child_layout_ids: ChildIds,
}

impl OverlayState {
    /// The child layout identifiers, in order.
    pub closed spec fn ids(&self) -> Seq<u64> {
        child_id_seq(self.child_layout_ids)
    }

    /// Records the layout identifiers of the overlay's children, as
    /// handed out by the host layout tree.
    pub fn from_ids(ids: &Vec<u64>) -> (r: OverlayState)
        ensures
            r.ids() == ids@,
    {
        let mut child_layout_ids = ids_new();
        let mut i: usize = 0;
        while i < ids.len()
            invariant
                i <= ids@.len(),
                child_id_seq(child_layout_ids) == ids@.take(i as int),
            decreases ids@.len() - i,
        {
            ids_push(&mut child_layout_ids, ids[i]);
            proof {
                assert(ids@.take(i as int).push(ids@[i as int]) =~= ids@.take(i + 1));
            }
            i = i + 1;
        }
        proof {
            assert(ids@.take(ids@.len() as int) =~= ids@);
        }
        OverlayState { child_layout_ids }
    }

    /// The number of children that were laid out.
    pub fn len(&self) -> (r: usize)
        ensures
            r == self.ids().len(),
    {
        ids_len(&self.child_layout_ids)
    }

    /// Whether no children were laid out; placement and painting are
    /// skipped in that case.
    pub fn is_empty(&self) -> (r: bool)
        ensures
            r == (self.ids().len() == 0),
    {
        ids_len(&self.child_layout_ids) == 0
    }

    /// The layout identifier of the child at position `i`.
    pub fn child_id(&self, i: usize) -> (r: u64)
        requires
            i < self.ids().len(),
        ensures
            r == self.ids()[i as int],
    {
        ids_at(&self.child_layout_ids, i)
    }
}

} // verus!
