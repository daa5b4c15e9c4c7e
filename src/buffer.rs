use vstd::prelude::*;

use crate::layout::{checked_alloc_size, fits, storage_bytes, CapacityOverflow};
use crate::zeroed::Zeroable;

verus! {

/// Whether values of `T` occupy no storage.
pub open spec fn zero_sized<T>() -> bool {
    vstd::layout::size_of::<T>() == 0
}

/// The number of elements a buffer of `T` holds when `len` are asked for:
/// `len` itself, or the largest representable count when `T` is zero-sized.
pub open spec fn logical_len<T>(len: nat) -> nat {
    if zero_sized::<T>() {
        usize::MAX as nat
    } else {
        len
    }
}

/// Every slot of `new` that `old` also has holds what it held in `old`.
pub open spec fn keeps_prefix<T>(old: Seq<Option<T>>, new: Seq<Option<T>>) -> bool {
    forall|i: int| 0 <= i < old.len() && i < new.len() ==> #[trigger] new[i] == old[i]
}

/// Every slot of `s` from index `from` on is uninitialised.
pub open spec fn uninit_from<T>(s: Seq<Option<T>>, from: int) -> bool {
    forall|i: int| from <= i < s.len() ==> #[trigger] s[i] is None
}

/// Whether `v` is a value that `T::default()` may return.
pub open spec fn is_default<T: Default>(v: T) -> bool {
    call_ensures(T::default, (), v)
}

/// Every slot of `s` from index `from` on holds `T`'s all-zero value.
pub open spec fn zeroed_from<T: Zeroable>(s: Seq<Option<T>>, from: int) -> bool {
    forall|i: int| from <= i < s.len() ==> #[trigger] s[i] == Some(T::zero())
}

/// Every slot of `s` from index `from` on holds a default value of `T`.
pub open spec fn defaulted_from<T: Default>(s: Seq<Option<T>>, from: int) -> bool {
    forall|i: int| from <= i < s.len() ==> (#[trigger] s[i] is Some && is_default(s[i]->0))
}

/// The first `n` slots of `a` and `b` agree.
pub open spec fn same_below<T>(a: Seq<Option<T>>, b: Seq<Option<T>>, n: int) -> bool {
    forall|i: int| 0 <= i < n ==> #[trigger] b[i] == a[i]
}

/// Whether slot `b` is a clone of slot `a`: both uninitialised, or `b`
/// holding a clone of the value in `a`.
pub open spec fn slot_cloned<T: Clone>(a: Option<T>, b: Option<T>) -> bool {
    match a {
        Some(x) => b matches Some(y) && cloned::<T>(x, y),
        None => b is None,
    }
}

/// Relies on `Vec::shrink_to_fit` to give back the capacity beyond the
/// length, leaving the elements as they are.
#[verifier::external_body]
fn shrink_to_fit<T>(v: &mut Vec<T>)
    ensures
        final(v)@ == old(v)@,
{
    v.shrink_to_fit()
}

/// Relies on `Vec::into_boxed_slice` to hand over the same elements, in
/// order, as a boxed slice.
#[verifier::external_body]
fn into_boxed_slice<T>(v: Vec<T>) -> (r: Box<[T]>)
    ensures
        r@ == v@,
{
    v.into_boxed_slice()
}

/// Storage for a fixed number of elements of `T`, each slot either
/// uninitialised or holding a value.
///
/// The storage holds exactly one slot per element, with no spare capacity,
/// and is owned by the buffer alone: dropping the buffer releases it, once.
/// Elements of a zero-sized type occupy none: such a buffer never allocates,
/// reports the largest representable length, and all its slots share one
/// value, as every value of a zero-sized type is the same.
///
/// Shrinking drops the truncated slots with their values, so growing again
/// exposes uninitialised slots (or zeroed or defaulted ones, with the
/// matching resize), never the values that were cut off.
#[derive(Debug)]
pub struct Buffer<T> {
    len: usize,
    slots: Vec<Option<T>>,
    unit: Option<T>,
}

impl<T> View for Buffer<T> {
    type V = Seq<Option<T>>;

    closed spec fn view(&self) -> Seq<Option<T>> {
        if zero_sized::<T>() {
            Seq::new(self.len as nat, |i: int| self.unit)
        } else {
            self.slots@
        }
    }
}

impl<T> Buffer<T> {
    /// The buffer's fields agree with each other.
    pub closed spec fn wf(&self) -> bool {
        if zero_sized::<T>() {
            &&& self.len == usize::MAX
            &&& self.slots@.len() == 0
        } else {
            &&& self.slots@.len() == self.len
            &&& self.unit is None
        }
    }

    /// Bytes of storage the buffer holds: its length times the element
    /// size, so none for an empty buffer or a zero-sized element type.
    pub open spec fn allocated_bytes(&self) -> nat {
        storage_bytes(self@.len(), vstd::layout::size_of::<T>())
    }

    /// A buffer of `len` uninitialised slots, or `CapacityOverflow` when
    /// the storage for them cannot be requested. Nothing is allocated when
    /// `len` is zero or `T` is zero-sized.
    pub fn new(len: usize) -> (r: Result<Self, CapacityOverflow>)
        ensures
            r is Ok <==> fits(len as nat, vstd::layout::size_of::<T>()),
            r matches Ok(b) ==> {
                &&& b.wf()
                &&& b@.len() == logical_len::<T>(len as nat)
                &&& uninit_from(b@, 0)
            },
    {
        let elem_size = core::mem::size_of::<T>();
        match checked_alloc_size(len, elem_size) {
            None => Err(CapacityOverflow),
            Some(bytes) => {
                if elem_size == 0 {
                    let b = Buffer { len: usize::MAX, slots: Vec::new(), unit: None };
                    proof {
                        assert(uninit_from(b@, 0));
                    }
                    Ok(b)
                } else if bytes == 0 {
                    proof {
                        assert(bytes as int == len as int * elem_size as int);
                        assert(len == 0) by (nonlinear_arith)
                            requires
                                0 == len as int * elem_size as int,
                                elem_size != 0,
                        ;
                    }
                    Ok(Buffer { len: 0, slots: Vec::new(), unit: None })
                } else {
                    let mut slots: Vec<Option<T>> = Vec::with_capacity(len);
                    while slots.len() < len
                        invariant
                            slots@.len() <= len,
                            uninit_from(slots@, 0),
                        decreases len - slots@.len(),
                    {
                        slots.push(None);
                    }
                    Ok(Buffer { len, slots, unit: None })
                }
            },
        }
    }

    /// The number of elements: the length the buffer was sized for, or the
    /// largest representable count for a zero-sized element type.
    pub fn len(&self) -> (r: usize)
        requires
            self.wf(),
        ensures
            r == self@.len(),
    {
        self.len
    }

    /// The storage, one slot per element. Elements of a zero-sized type
    /// occupy none, so for them it is empty.
    pub fn ptr(&self) -> (r: &[Option<T>])
        requires
            self.wf(),
        ensures
            !zero_sized::<T>() ==> r@ == self@,
            zero_sized::<T>() ==> r@.len() == 0,
    {
        self.slots.as_slice()
    }

    /// The element at `index`, or `None` when `index` is out of bounds or
    /// the slot is uninitialised.
    pub fn get(&self, index: usize) -> (r: Option<&T>)
        requires
            self.wf(),
        ensures
            r is Some <==> index < self@.len() && self@[index as int] is Some,
            r matches Some(v) ==> *v == self@[index as int]->0,
    {
        if index >= self.len {
            None
        } else if core::mem::size_of::<T>() == 0 {
            self.unit.as_ref()
        } else {
            self.slots[index].as_ref()
        }
    }

    /// The element at `index`, which must be in bounds and initialised.
    pub fn index(&self, index: usize) -> (r: &T)
        requires
            self.wf(),
            index < self@.len(),
            self@[index as int] is Some,
        ensures
            *r == self@[index as int]->0,
    {
        if core::mem::size_of::<T>() == 0 {
            self.unit.as_ref().unwrap()
        } else {
            self.slots[index].as_ref().unwrap()
        }
    }

    /// A mutable reference to the element at `index`, or `None` when `index`
    /// is out of bounds or the slot is uninitialised. What is written through
    /// it lands in that slot; for a zero-sized element type, in every slot.
    pub fn get_mut(&mut self, index: usize) -> (r: Option<&mut T>)
        requires
            old(self).wf(),
        ensures
            final(self).wf(),
            r is Some <==> index < old(self)@.len() && old(self)@[index as int] is Some,
            r is None ==> final(self)@ == old(self)@,
            r matches Some(v) ==> {
                &&& *v == old(self)@[index as int]->0
                &&& !zero_sized::<T>() ==> final(self)@ == old(self)@.update(index as int, Some(*final(v)))
                &&& zero_sized::<T>() ==> final(self)@ == Seq::new(old(self)@.len(), |i: int| Some(*final(v)))
            },
    {
        if index >= self.len {
            None
        } else if core::mem::size_of::<T>() == 0 {
            self.unit.as_mut()
        } else {
            self.slots[index].as_mut()
        }
    }

    /// Writes `value` into the slot at `index`. For a zero-sized element
    /// type every slot shares the one value written.
    pub fn set(&mut self, index: usize, value: T)
        requires
            old(self).wf(),
            index < old(self)@.len(),
        ensures
            final(self).wf(),
            !zero_sized::<T>() ==> final(self)@ == old(self)@.update(index as int, Some(value)),
            zero_sized::<T>() ==> final(self)@ == Seq::new(old(self)@.len(), |i: int| Some(value)),
    {
        if core::mem::size_of::<T>() == 0 {
            self.unit = Some(value);
        } else {
            self.slots.set(index, Some(value));
        }
    }

    /// Resizes the buffer to `new_len` elements, or returns
    /// `CapacityOverflow`, leaving it unchanged, when the storage for them
    /// cannot be requested.
    ///
    /// The first `min(old, new_len)` slots keep their contents; slots past
    /// the old length are uninitialised. Resizing to zero releases the
    /// storage. For a zero-sized element type nothing changes: such a buffer
    /// already holds the largest representable number of elements.
    pub fn resize(&mut self, new_len: usize) -> (r: Result<(), CapacityOverflow>)
        requires
            old(self).wf(),
        ensures
            final(self).wf(),
            r is Ok <==> fits(new_len as nat, vstd::layout::size_of::<T>()),
            r is Ok ==> {
                &&& final(self)@.len() == logical_len::<T>(new_len as nat)
                &&& keeps_prefix(old(self)@, final(self)@)
                &&& uninit_from(final(self)@, old(self)@.len() as int)
            },
            r is Err ==> final(self)@ == old(self)@,
            zero_sized::<T>() ==> final(self)@ == old(self)@,
    {
        let elem_size = core::mem::size_of::<T>();
        if checked_alloc_size(new_len, elem_size).is_none() {
            return Err(CapacityOverflow);
        }
        if elem_size == 0 {
            return Ok(());
        }
        if new_len == 0 {
            self.slots = Vec::new();
        } else if new_len < self.len {
            self.slots.truncate(new_len);
            shrink_to_fit(&mut self.slots);
        } else if new_len > self.len {
            // Storage for exactly `new_len` slots; the old slots move over.
            let mut grown: Vec<Option<T>> = Vec::with_capacity(new_len);
            grown.append(&mut self.slots);
            let ghost kept = grown@;
            while grown.len() < new_len
                invariant
                    kept == old(self).slots@,
                    kept.len() <= grown@.len() <= new_len,
                    grown@.subrange(0, kept.len() as int) == kept,
                    uninit_from(grown@, kept.len() as int),
                decreases new_len - grown@.len(),
            {
                grown.push(None);
                proof {
                    assert(grown@.subrange(0, kept.len() as int) =~= kept);
                }
            }
            proof {
                assert forall|i: int| 0 <= i < kept.len() implies #[trigger] grown@[i] == kept[i] by {
                    assert(grown@.subrange(0, kept.len() as int)[i] == grown@[i]);
                }
            }
            self.slots = grown;
        }
        self.len = new_len;
        Ok(())
    }

    /// Writes the all-zero value into every slot from `from` on. For a
    /// zero-sized element type, whose slots share one value, that is every
    /// slot, unless `from` is the length.
    pub(crate) fn fill_zeroed(&mut self, from: usize) where T: Zeroable
        requires
            old(self).wf(),
            from <= old(self)@.len(),
        ensures
            final(self).wf(),
            final(self)@.len() == old(self)@.len(),
            zeroed_from(final(self)@, from as int),
            !zero_sized::<T>() ==> same_below(old(self)@, final(self)@, from as int),
            zero_sized::<T>() && from < old(self)@.len() ==> zeroed_from(final(self)@, 0),
            zero_sized::<T>() && from == old(self)@.len() ==> final(self)@ == old(self)@,
    {
        if core::mem::size_of::<T>() == 0 {
            if from < self.len {
                self.unit = Some(T::zeroed());
            }
            return;
        }
        let mut i: usize = from;
        while i < self.len
            invariant
                self.wf(),
                !zero_sized::<T>(),
                self.len == old(self).len,
                from <= i <= self.len,
                same_below(old(self)@, self@, from as int),
                forall|j: int| from <= j < i ==> #[trigger] self@[j] == Some(T::zero()),
            decreases self.len - i,
        {
            self.slots.set(i, Some(T::zeroed()));
            i = i + 1;
        }
    }

    /// Writes a default value into every slot from `from` on, one slot at a
    /// time in index order. For a zero-sized element type, whose slots share
    /// one value, that is every slot, unless `from` is the length.
    pub(crate) fn fill_defaults(&mut self, from: usize) where T: Default
        requires
            old(self).wf(),
            from <= old(self)@.len(),
        ensures
            final(self).wf(),
            final(self)@.len() == old(self)@.len(),
            defaulted_from(final(self)@, from as int),
            !zero_sized::<T>() ==> same_below(old(self)@, final(self)@, from as int),
            zero_sized::<T>() && from < old(self)@.len() ==> defaulted_from(final(self)@, 0),
            zero_sized::<T>() && from == old(self)@.len() ==> final(self)@ == old(self)@,
    {
        if core::mem::size_of::<T>() == 0 {
            if from < self.len {
                self.unit = Some(T::default());
            }
            return;
        }
        let mut i: usize = from;
        while i < self.len
            invariant
                self.wf(),
                !zero_sized::<T>(),
                self.len == old(self).len,
                from <= i <= self.len,
                same_below(old(self)@, self@, from as int),
                forall|j: int| from <= j < i ==> (#[trigger] self@[j] is Some && is_default(self@[j]->0)),
            decreases self.len - i,
        {
            self.slots.set(i, Some(T::default()));
            i = i + 1;
        }
    }

    /// A buffer of `len` slots, each holding the all-zero value, or
    /// `CapacityOverflow` when the storage for them cannot be requested.
    pub fn new_zeroed(len: usize) -> (r: Result<Self, CapacityOverflow>) where T: Zeroable
        ensures
            r is Ok <==> fits(len as nat, vstd::layout::size_of::<T>()),
            r matches Ok(b) ==> {
                &&& b.wf()
                &&& b@.len() == logical_len::<T>(len as nat)
                &&& zeroed_from(b@, 0)
            },
    {
        match Self::new(len) {
            Err(e) => Err(e),
            Ok(mut b) => {
                b.fill_zeroed(0);
                Ok(b)
            },
        }
    }

    /// A buffer of `len` slots, each holding a default value written in
    /// index order, or `CapacityOverflow` when the storage for them cannot
    /// be requested.
    pub fn new_defaulted(len: usize) -> (r: Result<Self, CapacityOverflow>) where T: Default
        ensures
            r is Ok <==> fits(len as nat, vstd::layout::size_of::<T>()),
            r matches Ok(b) ==> {
                &&& b.wf()
                &&& b@.len() == logical_len::<T>(len as nat)
                &&& defaulted_from(b@, 0)
            },
    {
        match Self::new(len) {
            Err(e) => Err(e),
            Ok(mut b) => {
                b.fill_defaults(0);
                Ok(b)
            },
        }
    }

    /// As `resize`, but the slots past the old length hold the all-zero
    /// value. Slots below it are not touched.
    pub fn resize_zeroed(&mut self, new_len: usize) -> (r: Result<(), CapacityOverflow>) where
        T: Zeroable,
        requires
            old(self).wf(),
        ensures
            final(self).wf(),
            r is Ok <==> fits(new_len as nat, vstd::layout::size_of::<T>()),
            r is Ok ==> {
                &&& final(self)@.len() == logical_len::<T>(new_len as nat)
                &&& keeps_prefix(old(self)@, final(self)@)
                &&& zeroed_from(final(self)@, old(self)@.len() as int)
            },
            r is Err ==> final(self)@ == old(self)@,
            zero_sized::<T>() ==> final(self)@ == old(self)@,
    {
        let old_len = self.len;
        match self.resize(new_len) {
            Err(e) => Err(e),
            Ok(()) => {
                if old_len < self.len {
                    self.fill_zeroed(old_len);
                }
                Ok(())
            },
        }
    }

    /// As `resize`, but the slots past the old length hold default values,
    /// written in index order. Slots below it are not touched.
    pub fn resize_defaulted(&mut self, new_len: usize) -> (r: Result<(), CapacityOverflow>) where
        T: Default,
        requires
            old(self).wf(),
        ensures
            final(self).wf(),
            r is Ok <==> fits(new_len as nat, vstd::layout::size_of::<T>()),
            r is Ok ==> {
                &&& final(self)@.len() == logical_len::<T>(new_len as nat)
                &&& keeps_prefix(old(self)@, final(self)@)
                &&& defaulted_from(final(self)@, old(self)@.len() as int)
            },
            r is Err ==> final(self)@ == old(self)@,
            zero_sized::<T>() ==> final(self)@ == old(self)@,
    {
        let old_len = self.len;
        match self.resize(new_len) {
            Err(e) => Err(e),
            Ok(()) => {
                if old_len < self.len {
                    self.fill_defaults(old_len);
                }
                Ok(())
            },
        }
    }

    /// Releases the storage, leaving an empty buffer. A buffer of a
    /// zero-sized element type holds no storage and is left as it is.
    pub fn release(&mut self)
        requires
            old(self).wf(),
        ensures
            final(self).wf(),
            final(self).allocated_bytes() == 0,
            !zero_sized::<T>() ==> final(self)@.len() == 0,
            zero_sized::<T>() ==> final(self)@ == old(self)@,
    {
        if core::mem::size_of::<T>() != 0 {
            self.slots = Vec::new();
            self.len = 0;
        }
    }

    /// Takes ownership of the elements of `slice`, in order, every slot
    /// initialised. They move into storage of the buffer's own, and the
    /// slice's allocation is released. For a zero-sized element type the
    /// buffer holds the largest representable number of elements, each the
    /// last one of `slice`, or uninitialised when `slice` is empty.
    pub fn from_box(slice: Box<[T]>) -> (r: Self)
        ensures
            r.wf(),
            !zero_sized::<T>() ==> r@.len() == slice@.len(),
            !zero_sized::<T>() ==> forall|i: int| 0 <= i < r@.len() ==> #[trigger] r@[i] == Some(slice@[i]),
            zero_sized::<T>() ==> r@.len() == usize::MAX,
            zero_sized::<T>() && slice@.len() == 0 ==> uninit_from(r@, 0),
            zero_sized::<T>() && slice@.len() > 0 ==> forall|i: int| 0 <= i < r@.len() ==> #[trigger] r@[i] == Some(slice@.last()),
    {
        let mut v: Vec<T> = slice.into_vec();
        let ghost elems = v@;
        if core::mem::size_of::<T>() == 0 {
            let unit = v.pop();
            return Buffer { len: usize::MAX, slots: Vec::new(), unit };
        }
        let n = v.len();
        let mut slots: Vec<Option<T>> = Vec::with_capacity(n);
        while slots.len() < n
            invariant
                slots@.len() <= n,
            decreases n - slots@.len(),
        {
            slots.push(None);
        }
        while v.len() > 0
            invariant
                n == elems.len(),
                slots@.len() == n,
                v@.len() <= n,
                v@ == elems.subrange(0, v@.len() as int),
                forall|j: int| v@.len() <= j < n ==> #[trigger] slots@[j] == Some(elems[j]),
            decreases v@.len(),
        {
            let k = v.len() - 1;
            let x = v.pop().unwrap();
            slots.set(k, Some(x));
        }
        Buffer { len: n, slots, unit: None }
    }

    /// Hands the elements over as a boxed slice, in order. Every slot must be
    /// initialised, and the element type must have nonzero size: a buffer of
    /// a zero-sized type holds more elements than a slice is worth building.
    pub fn into_box(self) -> (r: Box<[T]>)
        requires
            self.wf(),
            !zero_sized::<T>(),
            forall|i: int| 0 <= i < self@.len() ==> #[trigger] self@[i] is Some,
        ensures
            r@.len() == self@.len(),
            forall|i: int| 0 <= i < r@.len() ==> Some(#[trigger] r@[i]) == self@[i],
    {
        let ghost all = self@;
        let mut slots = self.slots;
        let n = slots.len();
        let mut rev: Vec<T> = Vec::with_capacity(n);
        while slots.len() > 0
            invariant
                n == all.len(),
                slots@ == all.subrange(0, slots@.len() as int),
                rev@.len() + slots@.len() == n,
                forall|i: int| 0 <= i < all.len() ==> #[trigger] all[i] is Some,
                forall|j: int| 0 <= j < rev@.len() ==> Some(#[trigger] rev@[j]) == all[n - 1 - j],
            decreases slots@.len(),
        {
            let x = slots.pop().unwrap();
            rev.push(x.unwrap());
        }
        let mut out: Vec<T> = Vec::with_capacity(n);
        while rev.len() > 0
            invariant
                n == all.len(),
                rev@.len() + out@.len() == n,
                forall|j: int| 0 <= j < rev@.len() ==> Some(#[trigger] rev@[j]) == all[n - 1 - j],
                forall|j: int| 0 <= j < out@.len() ==> Some(#[trigger] out@[j]) == all[j],
            decreases rev@.len(),
        {
            let x = rev.pop().unwrap();
            out.push(x);
        }
        into_boxed_slice(out)
    }
}

impl<T: Clone> Clone for Buffer<T> {
    /// A buffer of the same length whose slots are clones of this one's, in
    /// index order; it shares no storage with this one.
    fn clone(&self) -> (r: Self)
        ensures
            self.wf() ==> r.wf(),
            self.wf() ==> r@.len() == self@.len(),
            self.wf() ==> forall|i: int| 0 <= i < r@.len() ==> slot_cloned(self@[i], #[trigger] r@[i]),
    {
        if core::mem::size_of::<T>() == 0 {
            let unit = match &self.unit {
                Some(v) => Some(v.clone()),
                None => None,
            };
            return Buffer { len: usize::MAX, slots: Vec::new(), unit };
        }
        let n = self.slots.len();
        let mut slots: Vec<Option<T>> = Vec::with_capacity(n);
        while slots.len() < n
            invariant
                n == self.slots@.len(),
                slots@.len() <= n,
                forall|j: int| 0 <= j < slots@.len() ==> slot_cloned(self.slots@[j], #[trigger] slots@[j]),
            decreases n - slots@.len(),
        {
            let i = slots.len();
            let c = match &self.slots[i] {
                Some(v) => Some(v.clone()),
                None => None,
            };
            slots.push(c);
        }
        Buffer { len: n, slots, unit: None }
    }
}

/// A buffer holds storage exactly when it has elements and they have nonzero
/// size: only such a buffer makes an allocation, which it releases once, when
/// it is dropped. Empty buffers and buffers of zero-sized elements never reach
/// the allocator.
pub proof fn lemma_storage_iff_nonempty<T>(b: &Buffer<T>)
    requires
        b.wf(),
    ensures
        b.allocated_bytes() > 0 <==> (b@.len() > 0 && !zero_sized::<T>()),
{
    let (n, size) = (b@.len(), vstd::layout::size_of::<T>());
    assert(n * size > 0 <==> (n > 0 && size > 0)) by (nonlinear_arith);
}

/// Growing slots `a` to `b` and then shrinking `b` back to the length of `a`,
/// as `resize` does, gives back exactly `a`.
pub proof fn lemma_grow_then_shrink<T>(a: Seq<Option<T>>, b: Seq<Option<T>>, c: Seq<Option<T>>)
    requires
        a.len() <= b.len(),
        keeps_prefix(a, b),
        c.len() == a.len(),
        keeps_prefix(b, c),
    ensures
        c == a,
{
    assert forall|i: int| 0 <= i < c.len() implies #[trigger] c[i] == a[i] by {
        assert(b[i] == a[i]);
    }
    assert(c =~= a);
}

} // verus!
