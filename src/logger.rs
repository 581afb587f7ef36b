use vstd::prelude::*;
use crate::error::BarelogError;
use crate::level::{enabled, is_enabled, Level};
use crate::registry::{Registry, RegistryModel};
use crate::message::render_message;
use crate::subscriber::Subscriber;

verus! {

/// What a logger holds: its threshold and its registry.
pub struct LoggerModel<S> {
    /// The least severe level that is dispatched.
    pub max_level: Level,
    /// The registered subscribers.
    pub registry: RegistryModel<S>,
}

/// The subscribers that a message of `level` reaches, in order: all of them
/// when the level clears the threshold, none otherwise.
pub open spec fn dispatched<S>(m: LoggerModel<S>, level: Level) -> Seq<S> {
    if enabled(level, m.max_level) {
        m.registry.subscribers
    } else {
        Seq::empty()
    }
}

/// The logging state: a threshold, `Info` at first, and a registry of
/// subscribers.
pub struct Logger<S> {
    max_level: Level,
    registry: Registry<S>,
}

impl<S: Copy> View for Logger<S> {
    type V = LoggerModel<S>;

    closed spec fn view(&self) -> LoggerModel<S> {
        LoggerModel { max_level: self.max_level, registry: self.registry@ }
    }
}

impl<S: Copy> Logger<S> {
    /// Whether the logger is well formed.
    pub open spec fn wf(&self) -> bool {
        self@.registry.wf()
    }

    /// A logger whose registry is a single write-once slot.
    pub fn fixed_slot() -> (r: Self)
        ensures
            r.wf(),
            r@.max_level == Level::Info,
            r@.registry.fixed,
            r@.registry.subscribers.len() == 0,
    {
        Logger { max_level: Level::Info, registry: Registry::fixed_slot() }
    }

    /// A logger whose registry is an unbounded growable list.
    pub fn growable() -> (r: Self)
        ensures
            r.wf(),
            r@.max_level == Level::Info,
            !r@.registry.fixed,
            r@.registry.capacity is None,
            r@.registry.subscribers.len() == 0,
    {
        Logger { max_level: Level::Info, registry: Registry::growable() }
    }

    /// A logger whose registry is a growable list of at most `capacity`
    /// subscribers.
    pub fn bounded(capacity: usize) -> (r: Self)
        ensures
            r.wf(),
            r@.max_level == Level::Info,
            !r@.registry.fixed,
            r@.registry.capacity == Some(capacity as nat),
            r@.registry.subscribers.len() == 0,
    {
        Logger { max_level: Level::Info, registry: Registry::bounded(capacity) }
    }

    /// The registry of the logger.
    pub fn registry(&self) -> (r: &Registry<S>)
        ensures
            r@ == self@.registry,
    {
        &self.registry
    }

    /// Registers `s` under the policy of the registry's mode.
    pub(crate) fn register(&mut self, s: S) -> (r: Result<(), BarelogError>)
        requires
            old(self).wf(),
        ensures
            final(self).wf(),
            final(self)@.max_level == old(self)@.max_level,
            (final(self)@.registry, r) == old(self)@.registry.register(s),
    {
        self.registry.register(s)
    }
}

/// Sets the threshold: only messages at or above `level` are dispatched.
pub fn set_max_level<S: Copy>(logger: &mut Logger<S>, level: Level)
    ensures
        final(logger)@ == (LoggerModel { max_level: level, ..old(logger)@ }),
{
    logger.max_level = level;
}

/// Gets the current threshold.
pub fn get_max_level<S: Copy>(logger: &Logger<S>) -> (r: Level)
    ensures
        r == logger@.max_level,
{
    logger.max_level
}

/// The subscribers that a message of `level` reaches, oldest first: a copy
/// of the registry when the level clears the threshold, empty otherwise.
pub fn recipients<S: Copy>(logger: &Logger<S>, level: Level) -> (r: Vec<S>)
    ensures
        r@ == dispatched(logger@, level),
{
    if is_enabled(level, logger.max_level) {
        logger.registry.snapshot()
    } else {
        Vec::new()
    }
}

/// Hands `(level, message)` to each of `targets` once, in order.
pub fn notify_all<S: Copy + Subscriber>(targets: &Vec<S>, level: Level, message: &str) {
    let mut i: usize = 0;
    while i < targets.len()
        invariant
            i <= targets@.len(),
        decreases targets@.len() - i,
    {
        targets[i].log(level, message);
        i = i + 1;
    }
}

/// Logs `message` at `level`: when the level clears the threshold, each
/// registered subscriber receives `(level, message)` once, in the order of
/// registration; otherwise nothing happens. Returns how many received it.
pub fn log<S: Copy + Subscriber>(logger: &Logger<S>, level: Level, message: &str) -> (r: usize)
    ensures
        r == dispatched(logger@, level).len(),
{
    let targets = recipients(logger, level);
    notify_all(&targets, level, message);
    targets.len()
}

/// Logs `content` at `level` from the call site `module`, `line`: when the
/// level clears the threshold, the message is rendered as
/// `[<module>::<line>] [<LEVEL>] <content>` and dispatched as `log` does;
/// otherwise it is not even rendered. Returns how many subscribers received it.
pub fn log_at<S: Copy + Subscriber>(
    logger: &Logger<S>,
    level: Level,
    module: &str,
    line: u32,
    content: &str,
) -> (r: usize)
    ensures
        r == dispatched(logger@, level).len(),
{
    if is_enabled(level, logger.max_level) {
        let message = render_message(module, line, level, content);
        log(logger, level, message.as_str())
    } else {
        0
    }
}

} // verus!
