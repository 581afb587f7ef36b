use vstd::prelude::*;
use crate::error::BarelogError;
use crate::level::Level;
use crate::logger::Logger;

verus! {

/// A consumer of log events.
///
/// An implementation receives each dispatched event and should return
/// quickly: a slow subscriber stalls the caller that logs.
pub trait Subscriber {
    /// Called for each log event that reaches this subscriber.
    fn log(&self, level: Level, message: &str);
}

/// Registers the single subscriber of a write-once slot. The first call
/// succeeds; every later one reports `SubscriberAlreadySet` and leaves the
/// subscriber in place.
pub fn set_subscriber<S: Copy>(logger: &mut Logger<S>, subscriber: S) -> (r: Result<(), BarelogError>)
    requires
        old(logger).wf(),
        old(logger)@.registry.fixed,
    ensures
        final(logger).wf(),
        final(logger)@.max_level == old(logger)@.max_level,
        final(logger)@.registry.fixed,
        old(logger)@.registry.subscribers.len() == 0 ==> r is Ok
            && final(logger)@.registry.subscribers == seq![subscriber],
        old(logger)@.registry.subscribers.len() > 0 ==> r == Err::<(), BarelogError>(
            BarelogError::SubscriberAlreadySet,
        ) && final(logger)@ == old(logger)@,
{
    logger.register(subscriber)
}

/// Appends a subscriber to a growable list. A list that has reached its
/// capacity reports `SubscriberListFull` and is left as it is.
pub fn add_subscriber<S: Copy>(logger: &mut Logger<S>, subscriber: S) -> (r: Result<(), BarelogError>)
    requires
        old(logger).wf(),
        !old(logger)@.registry.fixed,
    ensures
        final(logger).wf(),
        final(logger)@.max_level == old(logger)@.max_level,
        final(logger)@.registry.fixed == old(logger)@.registry.fixed,
        final(logger)@.registry.capacity == old(logger)@.registry.capacity,
        old(logger)@.registry.is_full() ==> r == Err::<(), BarelogError>(
            BarelogError::SubscriberListFull,
        ) && final(logger)@ == old(logger)@,
        !old(logger)@.registry.is_full() ==> r is Ok && final(logger)@.registry.subscribers
            == old(logger)@.registry.subscribers.push(subscriber),
{
    logger.register(subscriber)
}

/// The registered subscriber of a write-once slot, if any (of a growable
/// list, the first one).
pub fn get_subscriber<S: Copy>(logger: &Logger<S>) -> (r: Option<S>)
    ensures
        r == (if logger@.registry.subscribers.len() > 0 {
            Some(logger@.registry.subscribers[0])
        } else {
            None
        }),
{
    logger.registry().first()
}

/// A point-in-time copy of the registered subscribers, oldest first.
pub fn get_subscribers<S: Copy>(logger: &Logger<S>) -> (r: Vec<S>)
    ensures
        r@ == logger@.registry.subscribers,
{
    logger.registry().snapshot()
}

} // verus!
