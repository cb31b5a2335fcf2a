//! Owned model of the engine's growable array record.
//!
//! The foreign engine returns lists as a heap record holding a recorded
//! element size, a logical element count, an allocated capacity and a raw
//! buffer. Here the record is held as an owned value: the live elements sit
//! in a vector, and the recorded element size and capacity are carried as
//! plain numbers. The well-formedness every operation keeps is that the
//! logical length never exceeds the capacity. The recorded element size is
//! *not* assumed to match the element type: an adopted record may lie about
//! it, and duplication is the operation that insists on the match.

use vstd::prelude::*;

verus! {

/// The plain contents of a foreign array record at adoption time: the
/// recorded element size, the allocated capacity (in elements), and the
/// logically live elements in index order.
#[derive(Debug, Clone)]
pub struct RawZarray<T> {
    pub el_sz: usize,
    pub alloc: usize,
    pub data: Vec<T>,
}

/// A growable array of fixed-size elements, owned by value. Exactly one
/// owner holds it at a time; duplication copies the live elements into
/// independently-owned storage.
#[derive(Debug)]
pub struct Zarray<T> {
    el_sz: usize,
    alloc: usize,
    data: Vec<T>,
}

impl<T> View for Zarray<T> {
    type V = Seq<T>;

    closed spec fn view(&self) -> Seq<T> {
        self.data@
    }
}

impl<T> Zarray<T> {
    /// The element size the record claims its elements have, in bytes.
    pub closed spec fn spec_el_sz(&self) -> usize {
        self.el_sz
    }

    /// The allocated capacity of the record, in elements.
    pub closed spec fn spec_alloc(&self) -> usize {
        self.alloc
    }

    /// The invariant every operation keeps: the logical length never
    /// exceeds the allocated capacity.
    pub open spec fn wf(&self) -> bool {
        self@.len() <= self.spec_alloc()
    }

    /// The recorded element size equals the size of the element type.
    pub open spec fn el_sz_ok(&self) -> bool {
        self.spec_el_sz() as nat == vstd::layout::size_of::<T>()
    }

    /// Builds an empty array whose recorded element size is the size of the
    /// element type, with nothing allocated yet.
    pub fn _new() -> (z: Zarray<T>)
        ensures
            z@ == Seq::<T>::empty(),
            z.spec_alloc() == 0,
            z.el_sz_ok(),
            z.wf(),
    {
        Zarray { el_sz: core::mem::size_of::<T>(), alloc: 0, data: Vec::new() }
    }

    /// Adopts a foreign array record, taking sole ownership of its contents.
    /// A record whose logical length exceeds its capacity is corrupt, and
    /// adopting it is a caller error this function refuses.
    pub fn from_ptr(raw: RawZarray<T>) -> (z: Zarray<T>)
        requires
            raw.data@.len() <= raw.alloc,
        ensures
            z@ == raw.data@,
            z.spec_el_sz() == raw.el_sz,
            z.spec_alloc() == raw.alloc,
            z.wf(),
    {
        Zarray { el_sz: raw.el_sz, alloc: raw.alloc, data: raw.data }
    }

    /// The logical element count.
    pub fn len(&self) -> (n: usize)
        ensures
            n == self@.len(),
    {
        self.data.len()
    }

    /// The allocated capacity, in elements.
    pub fn capacity(&self) -> (n: usize)
        ensures
            n == self.spec_alloc(),
    {
        self.alloc
    }

    /// Whether the recorded element size matches the element type's size.
    pub fn el_sz_matches(&self) -> (b: bool)
        ensures
            b == self.el_sz_ok(),
    {
        self.el_sz == core::mem::size_of::<T>()
    }

    /// Reads the element at `index`. Access beyond the logical length is a
    /// caller error this function refuses.
    pub fn get(&self, index: usize) -> (element: &T)
        requires
            index < self@.len(),
        ensures
            *element == self@[index as int],
    {
        &self.data[index]
    }

    /// Borrows the element at `index` mutably; nothing else can reach the
    /// array while the borrow lives. Access beyond the logical length is a
    /// caller error this function refuses.
    pub fn get_mut(&mut self, index: usize) -> (element: &mut T)
        requires
            index < old(self)@.len(),
        ensures
            *element == old(self)@[index as int],
            final(self)@ == old(self)@.update(index as int, *final(element)),
            final(self).spec_el_sz() == old(self).spec_el_sz(),
            final(self).spec_alloc() == old(self).spec_alloc(),
    {
        &mut self.data[index]
    }

    /// Overwrites the element at `index`. Access beyond the logical length
    /// is a caller error this function refuses.
    pub fn set(&mut self, index: usize, element: T)
        requires
            index < old(self)@.len(),
        ensures
            final(self)@ == old(self)@.update(index as int, element),
            final(self).spec_el_sz() == old(self).spec_el_sz(),
            final(self).spec_alloc() == old(self).spec_alloc(),
    {
        self.data.set(index, element);
    }

    /// The live elements as a slice, in index order.
    pub fn as_slice(&self) -> (s: &[T])
        ensures
            s@ == self@,
    {
        self.data.as_slice()
    }

    /// Duplicates the array into independently-owned storage: the capacity
    /// and recorded element size are carried over as they stand, and exactly
    /// the live elements are copied. A record whose recorded element size
    /// does not match the element type cannot be trusted for a byte-wise
    /// copy; duplicating it is a caller error this function refuses.
    pub fn duplicate(&self) -> (z: Zarray<T>) where T: Copy
        requires
            self.wf(),
            self.el_sz_ok(),
        ensures
            z@ == self@,
            z.spec_el_sz() == self.spec_el_sz(),
            z.spec_alloc() == self.spec_alloc(),
            z.el_sz_ok(),
            z.wf(),
    {
        let mut data: Vec<T> = Vec::new();
        let n: usize = self.data.len();
        let mut i: usize = 0;
        while i < n
            invariant
                n == self@.len(),
                i <= n,
                data@ == self@.subrange(0, i as int),
            decreases n - i,
        {
            data.push(self.data[i]);
            proof {
                assert(data@ =~= self@.subrange(0, i + 1));
            }
            i = i + 1;
        }
        proof {
            assert(data@ =~= self@);
        }
        Zarray { el_sz: self.el_sz, alloc: self.alloc, data }
    }

    /// Walks a fresh iterator to the end and collects what it yields: the
    /// live elements, in index order, each exactly once.
    pub fn to_vec(&self) -> (v: Vec<T>) where T: Copy
        ensures
            v@ == self@,
    {
        let mut it = self.iter();
        let mut v: Vec<T> = Vec::new();
        loop
            invariant
                it.zarray() == self,
                it.wf_iter(),
                v@ == self@.subrange(0, it.spec_index() as int),
            ensures
                v@ == self@,
            decreases it.spec_len() - it.spec_index(),
        {
            let ghost before: int = it.spec_index() as int;
            match it.next() {
                Some(element) => {
                    v.push(*element);
                    proof {
                        assert(v@ =~= self@.subrange(0, before + 1));
                    }
                },
                None => {
                    proof {
                        assert(v@ =~= self@);
                    }
                    break;
                },
            }
        }
        v
    }

    /// A fresh iterator positioned at the first element.
    pub fn iter(&self) -> (it: ZarrayIter<'_, T>)
        ensures
            it.zarray() == self,
            it.spec_index() == 0,
            it.spec_len() == self@.len(),
    {
        ZarrayIter { zarray: self, len: self.len(), index: 0 }
    }
}

/// The length–capacity invariant holds of every well-formed array.
pub proof fn lemma_length_within_capacity<T>(z: &Zarray<T>)
    requires
        z.wf(),
    ensures
        z@.len() <= z.spec_alloc(),
{
}

/// A restartable cursor over the live elements of an array, in index order.
/// It borrows the array read-only, so the array cannot be mutated while the
/// cursor is alive.
#[derive(Debug, Clone)]
pub struct ZarrayIter<'a, T> {
    zarray: &'a Zarray<T>,
    len: usize,
    index: usize,
}

impl<'a, T> ZarrayIter<'a, T> {
    /// The array being walked.
    pub closed spec fn zarray(&self) -> &'a Zarray<T> {
        self.zarray
    }

    /// The position of the next element to yield.
    pub closed spec fn spec_index(&self) -> usize {
        self.index
    }

    /// The element count fixed when the cursor was made.
    pub closed spec fn spec_len(&self) -> usize {
        self.len
    }

    /// A cursor is well formed when its fixed count is the array's length
    /// and its position has not run past the count.
    pub open spec fn wf_iter(&self) -> bool {
        self.spec_len() == self.zarray()@.len() && self.spec_index() <= self.spec_len()
    }

    /// Yields the element at the cursor position and advances, or yields
    /// nothing once every live element has been seen.
    pub fn next(&mut self) -> (element: Option<&'a T>)
        requires
            old(self).wf_iter(),
        ensures
            final(self).zarray() == old(self).zarray(),
            final(self).spec_len() == old(self).spec_len(),
            final(self).wf_iter(),
            old(self).spec_index() < old(self).spec_len() ==> {
                &&& final(self).spec_index() == old(self).spec_index() + 1
                &&& element matches Some(e) && *e == old(self).zarray()@[old(self).spec_index() as int]
            },
            old(self).spec_index() >= old(self).spec_len() ==> {
                &&& final(self).spec_index() == old(self).spec_index()
                &&& element is None
            },
    {
        if self.index < self.len {
            let index: usize = self.index;
            self.index = index + 1;
            Some(self.zarray.get(index))
        } else {
            None
        }
    }
}

} // verus!
