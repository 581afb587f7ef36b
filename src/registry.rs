use vstd::prelude::*;
use crate::error::BarelogError;

verus! {

/// What a registry holds: its mode, its capacity and its subscribers in the
/// order in which they were registered.
pub struct RegistryModel<S> {
    /// The single write-once slot (otherwise a growable list).
    pub fixed: bool,
    /// The most subscribers a growable list takes, if it is bounded.
    pub capacity: Option<nat>,
    /// The registered subscribers, oldest first.
    pub subscribers: Seq<S>,
}

impl<S> RegistryModel<S> {
    /// A fixed slot holds at most one subscriber and has no capacity of its own.
    pub open spec fn wf(self) -> bool {
        self.fixed ==> self.subscribers.len() <= 1 && self.capacity is None
    }

    /// Whether the registry takes no further subscriber.
    pub open spec fn is_full(self) -> bool {
        if self.fixed {
            self.subscribers.len() >= 1
        } else {
            match self.capacity {
                Some(c) => self.subscribers.len() >= c,
                None => false,
            }
        }
    }

    /// The error that a registration on a full registry reports.
    pub open spec fn full_error(self) -> BarelogError {
        if self.fixed {
            BarelogError::SubscriberAlreadySet
        } else {
            BarelogError::SubscriberListFull
        }
    }

    /// The registry and the outcome after registering `s`: a full registry
    /// is left as it is and reports its error; otherwise `s` is appended.
    pub open spec fn register(self, s: S) -> (RegistryModel<S>, Result<(), BarelogError>) {
        if self.is_full() {
            (self, Err(self.full_error()))
        } else {
            (
                RegistryModel {
                    fixed: self.fixed,
                    capacity: self.capacity,
                    subscribers: self.subscribers.push(s),
                },
                Ok(()),
            )
        }
    }

    /// The registry and the outcomes after registering each of `subs` in turn.
    pub open spec fn register_all(self, subs: Seq<S>) -> (
        RegistryModel<S>,
        Seq<Result<(), BarelogError>>,
    )
        decreases subs.len(),
    {
        if subs.len() == 0 {
            (self, Seq::empty())
        } else {
            let (next, first) = self.register(subs[0]);
            let (last, rest) = next.register_all(subs.drop_first());
            (last, seq![first] + rest)
        }
    }
}

/// The set of registered subscribers, in one of two modes chosen when it is
/// made: a single write-once slot, or a growable ordered list, optionally
/// bounded.
pub struct Registry<S> {
    fixed: bool,
    capacity: Option<usize>,
    subs: Vec<S>,
}

impl<S> View for Registry<S> {
    type V = RegistryModel<S>;

    closed spec fn view(&self) -> RegistryModel<S> {
        RegistryModel {
            fixed: self.fixed,
            capacity: match self.capacity {
                Some(c) => Some(c as nat),
                None => None,
            },
            subscribers: self.subs@,
        }
    }
}

impl<S: Copy> Registry<S> {
    /// Whether the registry is well formed.
    pub open spec fn wf(&self) -> bool {
        self@.wf()
    }

    /// An empty single slot.
    pub fn fixed_slot() -> (r: Self)
        ensures
            r.wf(),
            r@.fixed,
            r@.subscribers.len() == 0,
    {
        Registry { fixed: true, capacity: None, subs: Vec::new() }
    }

    /// An empty, unbounded growable list.
    pub fn growable() -> (r: Self)
        ensures
            r.wf(),
            !r@.fixed,
            r@.capacity is None,
            r@.subscribers.len() == 0,
    {
        Registry { fixed: false, capacity: None, subs: Vec::new() }
    }

    /// An empty growable list that takes at most `capacity` subscribers.
    pub fn bounded(capacity: usize) -> (r: Self)
        ensures
            r.wf(),
            !r@.fixed,
            r@.capacity == Some(capacity as nat),
            r@.subscribers.len() == 0,
    {
        Registry { fixed: false, capacity: Some(capacity), subs: Vec::new() }
    }

    /// Whether this is the single write-once slot.
    pub fn is_fixed(&self) -> (r: bool)
        ensures
            r == self@.fixed,
    {
        self.fixed
    }

    /// The number of registered subscribers.
    pub fn len(&self) -> (r: usize)
        ensures
            r == self@.subscribers.len(),
    {
        self.subs.len()
    }

    /// Registers `s` under the policy of the registry's mode: a taken slot
    /// reports `SubscriberAlreadySet`, a full list `SubscriberListFull`, and
    /// neither is changed; otherwise `s` is appended.
    pub fn register(&mut self, s: S) -> (r: Result<(), BarelogError>)
        requires
            old(self).wf(),
        ensures
            final(self).wf(),
            (final(self)@, r) == old(self)@.register(s),
    {
        if self.fixed {
            if self.subs.len() >= 1 {
                return Err(BarelogError::SubscriberAlreadySet);
            }
        } else {
            match self.capacity {
                Some(c) => {
                    if self.subs.len() >= c {
                        return Err(BarelogError::SubscriberListFull);
                    }
                },
                None => {},
            }
        }
        self.subs.push(s);
        Ok(())
    }

    /// The first registered subscriber, if any: in a single slot, the one
    /// that holds it.
    pub fn first(&self) -> (r: Option<S>)
        ensures
            r == (if self@.subscribers.len() > 0 {
                Some(self@.subscribers[0])
            } else {
                None
            }),
    {
        if self.subs.len() > 0 {
            Some(self.subs[0])
        } else {
            None
        }
    }

    /// A point-in-time copy of the registered subscribers, oldest first.
    pub fn snapshot(&self) -> (r: Vec<S>)
        ensures
            r@ == self@.subscribers,
    {
        let mut out: Vec<S> = Vec::new();
        let mut i: usize = 0;
        while i < self.subs.len()
            invariant
                i <= self.subs@.len(),
                out@ == self.subs@.subrange(0, i as int),
            decreases self.subs@.len() - i,
        {
            out.push(self.subs[i]);
            i = i + 1;
        }
        assert(out@ == self.subs@.subrange(0, self.subs@.len() as int));
        out
    }
}

} // verus!
