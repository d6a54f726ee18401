//! Handler registry: which observers hear which category of event, and in
//! what order.
//!
//! The registry does not hold the observers themselves. Subscribing yields an
//! identifier; a dispatch names the identifiers to invoke, in order of
//! registration, and the embedding code keeps the callback that belongs to
//! each identifier.

use vstd::prelude::*;

verus! {

/// The categories of event that an observer can subscribe to.
#[derive(Clone, Copy, Debug, PartialEq, Eq, Structural)]
pub enum Category {
    Message,
    Whisper,
    Join,
    Leave,
}

/// The identifiers subscribed to `category`, in order of registration. The
/// slot at index `id` holds the category of subscription `id`, or `None` once
/// it was cancelled.
pub open spec fn listeners(slots: Seq<Option<Category>>, category: Category) -> Seq<usize>
    decreases slots.len(),
{
    if slots.len() == 0 {
        Seq::empty()
    } else {
        let earlier = listeners(slots.drop_last(), category);
        if slots.last() == Some(category) {
            earlier.push((slots.len() - 1) as usize)
        } else {
            earlier
        }
    }
}

/// The subscriptions of one client.
pub struct Registry {
    slots: Vec<Option<Category>>,
}

impl View for Registry {
    type V = Seq<Option<Category>>;

    closed spec fn view(&self) -> Seq<Option<Category>> {
        self.slots@
    }
}

impl Registry {
    /// A registry without subscriptions.
    pub fn new() -> (registry: Registry)
        ensures
            registry@ == Seq::<Option<Category>>::empty(),
    {
        Registry { slots: Vec::new() }
    }

    /// Number of identifiers handed out so far.
    pub fn len(&self) -> (n: usize)
        ensures
            n == self@.len(),
    {
        self.slots.len()
    }

    /// Subscribes a new observer to `category` and returns its identifier.
    /// It is placed after every earlier subscription.
    pub fn subscribe(&mut self, category: Category) -> (id: usize)
        ensures
            id == old(self)@.len(),
            final(self)@ == old(self)@.push(Some(category)),
    {
        let id = self.slots.len();
        self.slots.push(Some(category));
        id
    }

    /// Cancels subscription `id`. Returns `false`, and changes nothing, where
    /// `id` was never handed out or was cancelled before.
    pub fn unsubscribe(&mut self, id: usize) -> (cancelled: bool)
        ensures
            cancelled == (id < old(self)@.len() && old(self)@[id as int].is_some()),
            cancelled ==> final(self)@ == old(self)@.update(id as int, None),
            !cancelled ==> final(self)@ == old(self)@,
    {
        if id < self.slots.len() {
            if self.slots[id].is_some() {
                self.slots[id] = None;
                return true;
            }
        }
        false
    }

    /// The identifiers to invoke for an event of `category`, in order.
    pub fn observers(&self, category: Category) -> (ids: Vec<usize>)
        ensures
            ids@ == listeners(self@, category),
    {
        let mut ids: Vec<usize> = Vec::new();
        let mut at: usize = 0;
        while at < self.slots.len()
            invariant
                at <= self.slots.len(),
                ids@ == listeners(self.slots@.take(at as int), category),
            decreases self.slots.len() - at,
        {
            proof {
                let longer = self.slots@.take(at + 1);
                assert(longer.drop_last() =~= self.slots@.take(at as int));
                assert(longer.last() == self.slots@[at as int]);
            }
            let heard = match self.slots[at] {
                Some(c) => c == category,
                None => false,
            };
            if heard {
                ids.push(at);
            }
            at += 1;
        }
        assert(self.slots@.take(at as int) =~= self.slots@);
        ids
    }
}

/// Observers are invoked in order of registration: the identifiers listed
/// for a category increase strictly, each of them is subscribed to that
/// category, and every identifier subscribed to it is listed.
pub proof fn listeners_follow_registration(slots: Seq<Option<Category>>, category: Category)
    requires
        slots.len() <= usize::MAX,
    ensures
        forall|i: int, j: int|
            0 <= i < j < listeners(slots, category).len() ==> listeners(slots, category)[i]
                < listeners(slots, category)[j],
        forall|i: int|
            0 <= i < listeners(slots, category).len() ==> {
                &&& (#[trigger] listeners(slots, category)[i]) < slots.len()
                &&& slots[listeners(slots, category)[i] as int] == Some(category)
            },
        forall|id: int|
            0 <= id < slots.len() && #[trigger] slots[id] == Some(category) ==> listeners(
                slots,
                category,
            ).contains(id as usize),
    decreases slots.len(),
{
    if slots.len() > 0 {
        let shorter = slots.drop_last();
        listeners_follow_registration(shorter, category);
        let earlier = listeners(shorter, category);
        let all = listeners(slots, category);
        assert forall|id: int|
            0 <= id < slots.len() && #[trigger] slots[id] == Some(category) implies all.contains(
            id as usize,
        ) by {
            if id < slots.len() - 1 {
                assert(shorter[id] == Some(category));
                let at = choose|at: int| 0 <= at < earlier.len() && earlier[at] == id as usize;
                assert(all[at] == id as usize);
            } else {
                assert(all[all.len() - 1] == id as usize);
            }
        }
        assert forall|i: int| 0 <= i < all.len() implies (#[trigger] all[i]) < slots.len()
            && slots[all[i] as int] == Some(category) by {
            if i < earlier.len() {
                assert(earlier[i] < shorter.len());
                assert(shorter[earlier[i] as int] == slots[earlier[i] as int]);
            }
        }
    }
}

} // verus!
