//! Slot storage for the tab bar model.
//!
//! Each of the three slots (leading, main, trailing) holds keys of renderable
//! elements in a `smallvec::SmallVec`, inline up to two elements as the bar
//! typically carries at most a couple of auxiliary controls. The elements
//! themselves are owned by the embedding UI layer; a key is an opaque `u64` it
//! hands out. The vector is an outside type that Verus does not look into, so
//! the storage sits in an opaque struct, its contents are named by an
//! uninterpreted view, and the handful of methods the model needs are wrapped
//! with contracts taken from smallvec's source.

use vstd::prelude::*;

verus! {

/// An opaque key standing for a renderable element owned by the embedding
/// UI layer. The model stores and orders keys; it never looks inside them.
pub type ElementKey = u64;

/// One ordered slot of element keys, backed by a small vector.
#[verifier::external_body]
pub struct Slot {
    inner: smallvec::SmallVec<[u64; 2]>,
}

/// The elements a slot holds, in order.
pub uninterp spec fn slot_elems(s: Slot) -> Seq<ElementKey>;

impl Slot {
    /// Relies on smallvec::SmallVec::new: constructs an empty vector.
    #[verifier::external_body]
    pub(crate) fn new() -> (r: Slot)
        ensures
            slot_elems(r) == Seq::<ElementKey>::empty(),
    {
        Slot { inner: smallvec::SmallVec::new() }
    }

    /// Relies on smallvec::SmallVec::push: appends one item at the end.
    #[verifier::external_body]
    pub fn push(&mut self, x: ElementKey)
        ensures
            slot_elems(*final(self)) == slot_elems(*old(self)).push(x),
    {
        self.inner.push(x)
    }

    /// Relies on smallvec::SmallVec::len: the number of elements stored.
    #[verifier::external_body]
    pub fn len(&self) -> (r: usize)
        ensures
            r == slot_elems(*self).len(),
    {
        self.inner.len()
    }

    /// Relies on smallvec's Index impl (via SliceIndex on the underlying
    /// slice): yields the element at a position below the length.
    #[verifier::external_body]
    pub fn get(&self, i: usize) -> (r: ElementKey)
        requires
            i < slot_elems(*self).len(),
        ensures
            r == slot_elems(*self)[i as int],
    {
        self.inner[i]
    }

    /// Copies the slot's elements out, in order, as a plain vector.
    pub fn to_vec(&self) -> (r: Vec<ElementKey>)
        ensures
            r@ == slot_elems(*self),
    {
        let n = self.len();
        let mut r: Vec<ElementKey> = Vec::new();
        let mut i: usize = 0;
        proof {
            assert(r@ =~= slot_elems(*self).take(0));
        }
        while i < n
            invariant
                n == slot_elems(*self).len(),
                i <= n,
                r@ == slot_elems(*self).take(i as int),
            decreases n - i,
        {
            r.push(self.get(i));
            proof {
                assert(slot_elems(*self).take(i as int).push(slot_elems(*self)[i as int])
                    =~= slot_elems(*self).take(i + 1));
            }
            i += 1;
        }
        proof {
            assert(r@ =~= slot_elems(*self));
        }
        r
    }

    /// Appends every element of `xs`, in order, at the end of the slot.
    pub fn extend_from(&mut self, xs: &Vec<ElementKey>)
        ensures
            slot_elems(*final(self)) == slot_elems(*old(self)) + xs@,
    {
        let mut i: usize = 0;
        proof {
            assert(slot_elems(*self) =~= slot_elems(*old(self)) + xs@.take(0));
        }
        while i < xs.len()
            invariant
                i <= xs.len(),
                slot_elems(*self) == slot_elems(*old(self)) + xs@.take(i as int),
            decreases xs.len() - i,
        {
            self.push(xs[i]);
            proof {
                assert((slot_elems(*old(self)) + xs@.take(i as int)).push(xs@[i as int])
                    =~= slot_elems(*old(self)) + xs@.take(i + 1));
            }
            i += 1;
        }
        proof {
            assert(slot_elems(*self) =~= slot_elems(*old(self)) + xs@);
        }
    }
}

} // verus!
