use vstd::prelude::*;
use crate::error::BarelogError;
use crate::level::{enabled, Level};
use crate::logger::{dispatched, LoggerModel};
use crate::registry::RegistryModel;

verus! {

/// A message below the threshold reaches no subscriber; one at or above it
/// reaches every registered subscriber, in order. So, with at least one
/// subscriber registered, a message reaches none exactly when its level is
/// below the threshold.
pub proof fn filtering<S>(m: LoggerModel<S>, level: Level)
    ensures
        level.rank() < m.max_level.rank() ==> dispatched(m, level) == Seq::<S>::empty(),
        level.rank() >= m.max_level.rank() ==> dispatched(m, level) == m.registry.subscribers,
        m.registry.subscribers.len() > 0 ==> (dispatched(m, level).len() == 0 <==> level.rank()
            < m.max_level.rank()),
{
}

/// Under the initial threshold `Info`, a `Debug` message reaches no
/// subscriber and an `Info` message reaches all of them.
pub proof fn default_threshold<S>(m: LoggerModel<S>)
    requires
        m.max_level == Level::Info,
    ensures
        dispatched(m, Level::Debug) == Seq::<S>::empty(),
        dispatched(m, Level::Info) == m.registry.subscribers,
{
}

/// With no subscriber registered, a message of any level, `Fatal` included,
/// reaches nobody.
pub proof fn no_subscriber_silence<S>(m: LoggerModel<S>, level: Level)
    requires
        m.registry.subscribers.len() == 0,
    ensures
        dispatched(m, level) == Seq::<S>::empty(),
{
}

/// A registry that is full stays as it is under any further registrations,
/// and each of them reports the registry's error.
pub proof fn full_stays_full<S>(r: RegistryModel<S>, subs: Seq<S>)
    requires
        r.is_full(),
    ensures
        r.register_all(subs).0 == r,
        r.register_all(subs).1.len() == subs.len(),
        forall|i: int|
            0 <= i < subs.len() ==> #[trigger] r.register_all(subs).1[i] == Err::<
                (),
                BarelogError,
            >(r.full_error()),
    decreases subs.len(),
{
    if subs.len() > 0 {
        full_stays_full(r, subs.drop_first());
    }
}

/// Of any number of registrations on an empty write-once slot, the first
/// succeeds and every other reports `SubscriberAlreadySet`; the slot keeps
/// the first subscriber, and a later message that clears the threshold
/// reaches that subscriber only.
pub proof fn single_writer<S>(r: RegistryModel<S>, subs: Seq<S>, threshold: Level, level: Level)
    requires
        r.wf(),
        r.fixed,
        r.subscribers.len() == 0,
        subs.len() > 0,
    ensures
        r.register_all(subs).0.subscribers == seq![subs[0]],
        r.register_all(subs).1.len() == subs.len(),
        r.register_all(subs).1[0] is Ok,
        forall|i: int|
            1 <= i < subs.len() ==> #[trigger] r.register_all(subs).1[i] == Err::<
                (),
                BarelogError,
            >(BarelogError::SubscriberAlreadySet),
        enabled(level, threshold) ==> dispatched(
            LoggerModel { max_level: threshold, registry: r.register_all(subs).0 },
            level,
        ) == seq![subs[0]],
{
    let next = r.register(subs[0]).0;
    assert(next.subscribers =~= seq![subs[0]]);
    full_stays_full(next, subs.drop_first());
    assert forall|i: int| 1 <= i < subs.len() implies #[trigger] r.register_all(subs).1[i]
        == Err::<(), BarelogError>(BarelogError::SubscriberAlreadySet) by {
        assert(r.register_all(subs).1[i] == next.register_all(subs.drop_first()).1[i - 1]);
    }
}

/// Registrations on an unbounded growable list all succeed and append the
/// subscribers in the order of registration; a later message that clears the
/// threshold reaches them in that order, each once.
pub proof fn growable_order<S>(r: RegistryModel<S>, subs: Seq<S>, threshold: Level, level: Level)
    requires
        !r.fixed,
        r.capacity is None,
    ensures
        enabled(level, threshold) ==> dispatched(
            LoggerModel { max_level: threshold, registry: r.register_all(subs).0 },
            level,
        ) == r.subscribers + subs,
        r.register_all(subs).0.subscribers == r.subscribers + subs,
        r.register_all(subs).1.len() == subs.len(),
        forall|i: int| 0 <= i < subs.len() ==> #[trigger] r.register_all(subs).1[i] is Ok,
    decreases subs.len(),
{
    if subs.len() > 0 {
        let next = r.register(subs[0]).0;
        growable_order(next, subs.drop_first(), threshold, level);
        assert(next.subscribers + subs.drop_first() =~= r.subscribers + subs);
        assert forall|i: int| 0 <= i < subs.len() implies #[trigger] r.register_all(subs).1[i] is Ok by {
            if i > 0 {
                assert(r.register_all(subs).1[i] == next.register_all(subs.drop_first()).1[i - 1]);
            }
        }
    }
}

/// On a growable list bounded by `c`, registrations succeed while there is
/// room and report `SubscriberListFull` after; the list then holds what it
/// held followed by the subscribers that found room.
pub proof fn capacity_enforced<S>(r: RegistryModel<S>, subs: Seq<S>, c: nat)
    requires
        !r.fixed,
        r.capacity == Some(c),
        r.subscribers.len() <= c,
    ensures
        r.register_all(subs).0.subscribers == r.subscribers + subs.take(
            vstd::math::min(c - r.subscribers.len(), subs.len() as int),
        ),
        r.register_all(subs).1.len() == subs.len(),
        forall|i: int|
            0 <= i < subs.len() ==> #[trigger] r.register_all(subs).1[i] == (if i < c
                - r.subscribers.len() {
                Ok::<(), BarelogError>(())
            } else {
                Err(BarelogError::SubscriberListFull)
            }),
    decreases subs.len(),
{
    if subs.len() > 0 {
        if r.is_full() {
            full_stays_full(r, subs);
            assert(subs.take(0) =~= Seq::<S>::empty());
            assert(r.subscribers + Seq::<S>::empty() =~= r.subscribers);
        } else {
            let next = r.register(subs[0]).0;
            capacity_enforced(next, subs.drop_first(), c);
            let k = c - r.subscribers.len();
            assert(next.subscribers + subs.drop_first().take(
                vstd::math::min(k - 1, subs.len() - 1),
            ) =~= r.subscribers + subs.take(vstd::math::min(k, subs.len() as int)));
            assert forall|i: int| 0 <= i < subs.len() implies #[trigger] r.register_all(subs).1[i]
                == (if i < c - r.subscribers.len() {
                Ok::<(), BarelogError>(())
            } else {
                Err(BarelogError::SubscriberListFull)
            }) by {
                if i > 0 {
                    assert(r.register_all(subs).1[i] == next.register_all(subs.drop_first()).1[i
                        - 1]);
                }
            }
        }
    }
}

} // verus!
