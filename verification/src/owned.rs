//! The bounded list of token identifiers that one account owns.

use vstd::prelude::*;
use crate::model::{first_index, without_ordered, without_swapped};

verus! {

/// An ordered list of identifiers that never grows past its bound.
#[derive(Debug)]
pub struct OwnedList {
    items: Vec<u128>,
    bound: u32,
}

impl View for OwnedList {
    type V = Seq<u128>;

    closed spec fn view(&self) -> Seq<u128> {
        self.items@
    }
}

/// If `i` is a position of `id` in `list` with no occurrence before it,
/// it is the first position.
pub proof fn lemma_first_index(list: Seq<u128>, id: u128, i: int)
    requires
        0 <= i < list.len(),
        list[i] == id,
        forall|j: int| 0 <= j < i ==> list[j] != id,
    ensures
        first_index(list, id) == i,
{
    let c = first_index(list, id);
    assert(0 <= c < list.len() && list[c] == id && forall|j: int| 0 <= j < c ==> list[j] != id);
    if c < i {
        assert(list[c] != id);
    }
    if i < c {
        assert(list[i] != id);
    }
}

impl OwnedList {
    /// The most identifiers the list can hold.
    pub closed spec fn spec_bound(&self) -> u32 {
        self.bound
    }

    /// The list holds no more than its bound.
    pub closed spec fn wf(&self) -> bool {
        self.items@.len() <= self.bound
    }

    /// An empty list with the given bound.
    pub fn new(bound: u32) -> (r: Self)
        ensures
            r@ == Seq::<u128>::empty(),
            r.spec_bound() == bound,
            r.wf(),
    {
        OwnedList { items: Vec::new(), bound }
    }

    pub fn bound(&self) -> (r: u32)
        ensures
            r == self.spec_bound(),
    {
        self.bound
    }

    pub fn len(&self) -> (r: usize)
        ensures
            r == self@.len(),
    {
        self.items.len()
    }

    /// Whether one more identifier would exceed the bound.
    pub fn is_full(&self) -> (r: bool)
        ensures
            r == (self@.len() >= self.spec_bound()),
    {
        self.items.len() >= self.bound as usize
    }

    /// The identifiers, in order.
    pub fn to_vec(&self) -> (r: Vec<u128>)
        ensures
            r@ == self@,
    {
        let mut out: Vec<u128> = Vec::new();
        let mut i: usize = 0;
        while i < self.items.len()
            invariant
                i <= self.items.len(),
                out@ == self.items@.subrange(0, i as int),
            decreases self.items.len() - i,
        {
            out.push(self.items[i]);
            i += 1;
            assert(out@ =~= self.items@.subrange(0, i as int));
        }
        assert(out@ =~= self.items@);
        out
    }

    /// A list of its own with the same identifiers and the same bound.
    pub fn duplicate(&self) -> (r: Self)
        requires
            self.wf(),
        ensures
            r@ == self@,
            r.spec_bound() == self.spec_bound(),
            r.wf(),
    {
        OwnedList { items: self.to_vec(), bound: self.bound }
    }

    /// Appends `id`, unless the list is full: then the list is left as it
    /// was and `id` comes back.
    pub fn try_push(&mut self, id: u128) -> (r: Result<(), u128>)
        requires
            old(self).wf(),
        ensures
            final(self).wf(),
            final(self).spec_bound() == old(self).spec_bound(),
            r.is_ok() == (old(self)@.len() < old(self).spec_bound()),
            r.is_ok() ==> final(self)@ == old(self)@.push(id),
            r.is_err() ==> final(self)@ == old(self)@ && r == Err::<(), u128>(id),
    {
        if self.items.len() >= self.bound as usize {
            return Err(id);
        }
        self.items.push(id);
        Ok(())
    }

    /// The position of the first occurrence of `id`, if there is one.
    pub fn position(&self, id: u128) -> (r: Option<usize>)
        ensures
            r.is_some() == self@.contains(id),
            r.is_some() ==> r.unwrap() < self@.len() && r.unwrap() as int == first_index(
                self@,
                id,
            ),
    {
        let mut i: usize = 0;
        while i < self.items.len()
            invariant
                i <= self.items.len(),
                forall|j: int| 0 <= j < i ==> self.items@[j] != id,
            decreases self.items.len() - i,
        {
            if self.items[i] == id {
                proof {
                    lemma_first_index(self.items@, id, i as int);
                }
                return Some(i);
            }
            i += 1;
        }
        None
    }

    /// Takes the first occurrence of `id` out and keeps the others in
    /// order. Returns the position it had, or `None` if the list does not
    /// hold `id`.
    pub fn remove_by_value(&mut self, id: u128) -> (r: Option<usize>)
        requires
            old(self).wf(),
        ensures
            final(self).wf(),
            final(self).spec_bound() == old(self).spec_bound(),
            r.is_some() == old(self)@.contains(id),
            r.is_some() ==> r.unwrap() as int == first_index(old(self)@, id) && final(self)@
                == without_ordered(old(self)@, id),
            r.is_none() ==> final(self)@ == old(self)@,
    {
        match self.position(id) {
            Some(i) => {
                self.items.remove(i);
                Some(i)
            },
            None => None,
        }
    }

    /// Takes the first occurrence of `id` out and moves the last
    /// identifier into its place. Returns the position it had, or `None`
    /// if the list does not hold `id`.
    pub fn swap_remove_by_value(&mut self, id: u128) -> (r: Option<usize>)
        requires
            old(self).wf(),
        ensures
            final(self).wf(),
            final(self).spec_bound() == old(self).spec_bound(),
            r.is_some() == old(self)@.contains(id),
            r.is_some() ==> r.unwrap() as int == first_index(old(self)@, id) && final(self)@
                == without_swapped(old(self)@, id),
            r.is_none() ==> final(self)@ == old(self)@,
    {
        match self.position(id) {
            Some(i) => {
                self.items.swap_remove(i);
                Some(i)
            },
            None => None,
        }
    }
}

} // verus!
