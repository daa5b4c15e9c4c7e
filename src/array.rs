use vstd::prelude::*;

use crate::buffer::{
    defaulted_from, keeps_prefix, logical_len, slot_cloned, uninit_from, zero_sized, zeroed_from,
    Buffer,
};
use crate::layout::{fits, CapacityOverflow};
use crate::zeroed::Zeroable;

verus! {

/// A resizable array over a `Buffer`: storage sized for exactly its length,
/// whose slots the owner initialises, reads, writes and resizes explicitly.
///
/// `clear` truncates the length to zero and releases the storage; it does
/// not zero the slots in place.
#[derive(Debug)]
pub struct Array<T> {
    buf: Buffer<T>,
}

impl<T> View for Array<T> {
    type V = Seq<Option<T>>;

    closed spec fn view(&self) -> Seq<Option<T>> {
        self.buf@
    }
}

impl<T> Array<T> {
    /// The array's storage is well formed.
    pub closed spec fn wf(&self) -> bool {
        self.buf.wf()
    }

    /// Bytes of storage the array holds.
    pub open spec fn allocated_bytes(&self) -> nat {
        crate::layout::storage_bytes(self@.len(), vstd::layout::size_of::<T>())
    }

    /// An empty array; nothing is allocated. For a zero-sized element type
    /// it holds the largest representable number of uninitialised elements.
    pub fn new() -> (r: Self)
        ensures
            r.wf(),
            r@.len() == logical_len::<T>(0),
            uninit_from(r@, 0),
            r.allocated_bytes() == 0,
    {
        let r = Buffer::new(0);
        proof {
            assert(crate::layout::storage_bytes(0, vstd::layout::size_of::<T>()) == 0);
        }
        let a = Array { buf: r.unwrap() };
        proof {
            let (n, size) = (a@.len(), vstd::layout::size_of::<T>());
            assert(n * size == 0) by (nonlinear_arith)
                requires
                    n == 0 || size == 0,
            ;
        }
        a
    }

    /// An array of `len` uninitialised slots, or `CapacityOverflow` when the
    /// storage for them cannot be requested.
    pub fn with_len(len: usize) -> (r: Result<Self, CapacityOverflow>)
        ensures
            r is Ok <==> fits(len as nat, vstd::layout::size_of::<T>()),
            r matches Ok(a) ==> {
                &&& a.wf()
                &&& a@.len() == logical_len::<T>(len as nat)
                &&& uninit_from(a@, 0)
            },
    {
        match Buffer::new(len) {
            Ok(buf) => Ok(Array { buf }),
            Err(e) => Err(e),
        }
    }

    /// An array of `len` slots holding the all-zero value, or
    /// `CapacityOverflow` when the storage for them cannot be requested.
    pub fn with_len_zeroed(len: usize) -> (r: Result<Self, CapacityOverflow>) where T: Zeroable
        ensures
            r is Ok <==> fits(len as nat, vstd::layout::size_of::<T>()),
            r matches Ok(a) ==> {
                &&& a.wf()
                &&& a@.len() == logical_len::<T>(len as nat)
                &&& zeroed_from(a@, 0)
            },
    {
        match Buffer::new_zeroed(len) {
            Ok(buf) => Ok(Array { buf }),
            Err(e) => Err(e),
        }
    }

    /// Resizes the array to `new_len` elements; see `Buffer::resize`. Slots
    /// past the old length are uninitialised; shrinking drops the truncated
    /// slots together with their values.
    pub fn set_len(&mut self, new_len: usize) -> (r: Result<(), CapacityOverflow>)
        requires
            old(self).wf(),
        ensures
            final(self).wf(),
            r is Ok <==> fits(new_len as nat, vstd::layout::size_of::<T>()),
            r is Ok ==> {
                &&& final(self)@.len() == logical_len::<T>(new_len as nat)
                &&& keeps_prefix(old(self)@, final(self)@)
                &&& uninit_from(final(self)@, old(self)@.len() as int)
            },
            r is Err ==> final(self)@ == old(self)@,
            zero_sized::<T>() ==> final(self)@ == old(self)@,
    {
        self.buf.resize(new_len)
    }

    /// Writes a default value into every slot, in index order.
    pub fn defaults(&mut self) where T: Default
        requires
            old(self).wf(),
        ensures
            final(self).wf(),
            final(self)@.len() == old(self)@.len(),
            defaulted_from(final(self)@, 0),
    {
        self.buf.fill_defaults(0);
    }

    /// Takes over the elements of `slice`; see `Buffer::from_box`.
    pub fn from_box(slice: Box<[T]>) -> (r: Self)
        ensures
            r.wf(),
            !zero_sized::<T>() ==> r@.len() == slice@.len(),
            !zero_sized::<T>() ==> forall|i: int| 0 <= i < r@.len() ==> #[trigger] r@[i] == Some(slice@[i]),
            zero_sized::<T>() ==> r@.len() == usize::MAX,
            zero_sized::<T>() && slice@.len() == 0 ==> uninit_from(r@, 0),
            zero_sized::<T>() && slice@.len() > 0 ==> forall|i: int| 0 <= i < r@.len() ==> #[trigger] r@[i] == Some(slice@.last()),
    {
        Array { buf: Buffer::from_box(slice) }
    }

    /// Hands the elements over as a boxed slice; see `Buffer::into_box`.
    pub fn into_box(self) -> (r: Box<[T]>)
        requires
            self.wf(),
            !zero_sized::<T>(),
            forall|i: int| 0 <= i < self@.len() ==> #[trigger] self@[i] is Some,
        ensures
            r@.len() == self@.len(),
            forall|i: int| 0 <= i < r@.len() ==> Some(#[trigger] r@[i]) == self@[i],
    {
        proof {
            assert forall|i: int| 0 <= i < self.buf@.len() implies #[trigger] self.buf@[i] is Some by {
                assert(self@[i] is Some);
            }
        }
        self.buf.into_box()
    }

    /// The number of elements: the length the array was sized for, or the
    /// largest representable count for a zero-sized element type.
    pub fn len(&self) -> (r: usize)
        requires
            self.wf(),
        ensures
            r == self@.len(),
    {
        self.buf.len()
    }

    /// Releases the storage now, leaving an empty array; see
    /// `Buffer::release`.
    pub fn dealloc_buffer(&mut self)
        requires
            old(self).wf(),
        ensures
            final(self).wf(),
            final(self).allocated_bytes() == 0,
            !zero_sized::<T>() ==> final(self)@.len() == 0,
            zero_sized::<T>() ==> final(self)@ == old(self)@,
    {
        self.buf.release();
    }

    /// Empties the array: its length becomes zero and its storage is
    /// released. An array of a zero-sized element type is left as it is.
    pub fn clear(&mut self)
        requires
            old(self).wf(),
        ensures
            final(self).wf(),
            !zero_sized::<T>() ==> final(self)@.len() == 0,
            zero_sized::<T>() ==> final(self)@ == old(self)@,
    {
        proof {
            assert(crate::layout::storage_bytes(0, vstd::layout::size_of::<T>()) == 0);
        }
        let _ = self.buf.resize(0);
    }

    /// The element at `index`, or `None` when `index` is out of bounds or
    /// the slot is uninitialised.
    pub fn get(&self, index: usize) -> (r: Option<&T>)
        requires
            self.wf(),
        ensures
            r is Some <==> index < self@.len() && self@[index as int] is Some,
            r matches Some(v) ==> *v == self@[index as int]->0,
    {
        self.buf.get(index)
    }

    /// The element at `index`, which must be in bounds and initialised.
    pub fn index(&self, index: usize) -> (r: &T)
        requires
            self.wf(),
            index < self@.len(),
            self@[index as int] is Some,
        ensures
            *r == self@[index as int]->0,
    {
        self.buf.index(index)
    }

    /// A mutable reference to the element at `index`, or `None` when `index`
    /// is out of bounds or the slot is uninitialised; see `Buffer::get_mut`.
    pub fn get_mut(&mut self, index: usize) -> (r: Option<&mut T>)
        requires
            old(self).wf(),
        ensures
            final(self).wf(),
            r is Some <==> index < old(self)@.len() && old(self)@[index as int] is Some,
            r is None ==> final(self)@ == old(self)@,
            r matches Some(v) ==> {
                &&& *v == old(self)@[index as int]->0
                &&& !zero_sized::<T>() ==> final(self)@ == old(self)@.update(index as int, Some(*final(v)))
                &&& zero_sized::<T>() ==> final(self)@ == Seq::new(old(self)@.len(), |i: int| Some(*final(v)))
            },
    {
        self.buf.get_mut(index)
    }

    /// Writes `value` into the slot at `index`; see `Buffer::set`.
    pub fn set(&mut self, index: usize, value: T)
        requires
            old(self).wf(),
            index < old(self)@.len(),
        ensures
            final(self).wf(),
            !zero_sized::<T>() ==> final(self)@ == old(self)@.update(index as int, Some(value)),
            zero_sized::<T>() ==> final(self)@ == Seq::new(old(self)@.len(), |i: int| Some(value)),
    {
        self.buf.set(index, value);
    }

    /// The slots, in order; see `Buffer::ptr`.
    pub fn as_slice(&self) -> (r: &[Option<T>])
        requires
            self.wf(),
        ensures
            !zero_sized::<T>() ==> r@ == self@,
            zero_sized::<T>() ==> r@.len() == 0,
    {
        self.buf.ptr()
    }
}

impl<T: Clone> Clone for Array<T> {
    /// An array of the same length whose slots are clones of this one's.
    fn clone(&self) -> (r: Self)
        ensures
            self.wf() ==> r.wf(),
            self.wf() ==> r@.len() == self@.len(),
            self.wf() ==> forall|i: int| 0 <= i < r@.len() ==> slot_cloned(self@[i], #[trigger] r@[i]),
    {
        Array { buf: self.buf.clone() }
    }
}

} // verus!
