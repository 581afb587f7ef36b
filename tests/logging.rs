use std::cell::RefCell;

use barelog::{
    add_subscriber, get_max_level, get_subscriber, get_subscribers, log, log_at, notify_all,
    recipients, render_message, set_max_level, set_subscriber, BarelogError, Level, Logger,
    Registry, Subscriber,
};

type Journal = RefCell<Vec<(u8, Level, String)>>;

#[derive(Clone, Copy)]
struct Recorder<'a> {
    id: u8,
    journal: &'a Journal,
}

impl<'a> Subscriber for Recorder<'a> {
    fn log(&self, level: Level, message: &str) {
        self.journal.borrow_mut().push((self.id, level, message.to_string()));
    }
}

fn rec(id: u8, journal: &Journal) -> Recorder<'_> {
    Recorder { id, journal }
}

fn ids(subs: &[Recorder<'_>]) -> Vec<u8> {
    subs.iter().map(|s| s.id).collect()
}

const ALL: [Level; 6] = [
    Level::Trace,
    Level::Debug,
    Level::Info,
    Level::Warn,
    Level::Error,
    Level::Fatal,
];

#[test]
fn level_names() {
    let names: Vec<&str> = ALL.iter().map(|l| l.as_str()).collect();
    assert_eq!(names, vec!["TRACE", "DEBUG", "INFO", "WARN", "ERROR", "FATAL"]);
}

#[test]
fn level_colors() {
    let codes: Vec<&str> = ALL.iter().map(|l| l.color_code()).collect();
    assert_eq!(
        codes,
        vec!["\x1B[37m", "\x1B[36m", "\x1B[32m", "\x1B[33m", "\x1B[31m", "\x1B[35m"]
    );
    for l in ALL {
        assert_eq!(l.reset_code(), "\x1B[0m");
    }
}

#[test]
fn level_order() {
    for i in 0..ALL.len() {
        assert_eq!(ALL[i].severity() as usize, i);
        for j in 0..ALL.len() {
            assert_eq!(ALL[i] < ALL[j], i < j);
            assert_eq!(barelog::level::is_enabled(ALL[i], ALL[j]), i >= j);
        }
    }
}

#[test]
fn threshold_set_and_get() {
    let mut l: Logger<u8> = Logger::growable();
    assert_eq!(get_max_level(&l), Level::Info);
    set_max_level(&mut l, Level::Error);
    assert_eq!(get_max_level(&l), Level::Error);
    set_max_level(&mut l, Level::Trace);
    assert_eq!(get_max_level(&l), Level::Trace);
}

#[test]
fn filtering_every_pair() {
    let j = Journal::default();
    let mut l = Logger::growable();
    add_subscriber(&mut l, rec(1, &j)).unwrap();
    add_subscriber(&mut l, rec(2, &j)).unwrap();
    for (ti, t) in ALL.iter().enumerate() {
        set_max_level(&mut l, *t);
        for (li, lv) in ALL.iter().enumerate() {
            j.borrow_mut().clear();
            let n = log(&l, *lv, "m");
            let got: Vec<u8> = j.borrow().iter().map(|e| e.0).collect();
            if li < ti {
                assert_eq!(n, 0);
                assert!(got.is_empty());
                assert!(recipients(&l, *lv).is_empty());
            } else {
                assert_eq!(n, 2);
                assert_eq!(got, vec![1, 2]);
                assert_eq!(ids(&recipients(&l, *lv)), vec![1, 2]);
            }
        }
    }
}

#[test]
fn default_threshold_is_info() {
    let j = Journal::default();
    let mut l = Logger::fixed_slot();
    set_subscriber(&mut l, rec(1, &j)).unwrap();
    assert_eq!(log(&l, Level::Debug, "quiet"), 0);
    assert!(j.borrow().is_empty());
    assert_eq!(log(&l, Level::Info, "heard"), 1);
    assert_eq!(*j.borrow(), vec![(1, Level::Info, "heard".to_string())]);
}

#[test]
fn fixed_slot_single_writer() {
    let j = Journal::default();
    let mut l: Logger<Recorder<'_>> = Logger::fixed_slot();
    assert_eq!(get_subscriber(&l).map(|s| s.id), None);
    assert_eq!(set_subscriber(&mut l, rec(1, &j)), Ok(()));
    assert_eq!(set_subscriber(&mut l, rec(2, &j)), Err(BarelogError::SubscriberAlreadySet));
    assert_eq!(get_subscriber(&l).map(|s| s.id), Some(1));
    assert_eq!(ids(&get_subscribers(&l)), vec![1]);
    log(&l, Level::Warn, "w");
    log(&l, Level::Fatal, "f");
    let got: Vec<u8> = j.borrow().iter().map(|e| e.0).collect();
    assert_eq!(got, vec![1, 1]);
}

#[test]
fn fixed_slot_race_exactly_one_wins() {
    let mut l: Logger<u8> = Logger::fixed_slot();
    let outcomes: Vec<Result<(), BarelogError>> = (10..20).map(|s| set_subscriber(&mut l, s)).collect();
    assert_eq!(outcomes.iter().filter(|r| r.is_ok()).count(), 1);
    assert_eq!(outcomes[0], Ok(()));
    for r in &outcomes[1..] {
        assert_eq!(*r, Err(BarelogError::SubscriberAlreadySet));
    }
    assert_eq!(get_subscriber(&l), Some(10));
}

#[test]
fn growable_ordering() {
    let j = Journal::default();
    let mut l = Logger::growable();
    for id in [1, 2, 3] {
        assert_eq!(add_subscriber(&mut l, rec(id, &j)), Ok(()));
    }
    assert_eq!(log(&l, Level::Error, "m"), 3);
    let got: Vec<u8> = j.borrow().iter().map(|e| e.0).collect();
    assert_eq!(got, vec![1, 2, 3]);
}

#[test]
fn growable_allows_duplicates() {
    let mut l: Logger<u8> = Logger::growable();
    add_subscriber(&mut l, 5).unwrap();
    add_subscriber(&mut l, 5).unwrap();
    assert_eq!(get_subscribers(&l), vec![5, 5]);
    assert_eq!(get_subscriber(&l), Some(5));
}

#[test]
fn capacity_enforcement() {
    let mut l: Logger<u8> = Logger::bounded(2);
    assert_eq!(add_subscriber(&mut l, 1), Ok(()));
    assert_eq!(add_subscriber(&mut l, 2), Ok(()));
    assert_eq!(add_subscriber(&mut l, 3), Err(BarelogError::SubscriberListFull));
    assert_eq!(get_subscribers(&l), vec![1, 2]);
    assert_eq!(add_subscriber(&mut l, 4), Err(BarelogError::SubscriberListFull));
    assert_eq!(get_subscribers(&l), vec![1, 2]);
}

#[test]
fn capacity_zero_takes_nothing() {
    let mut l: Logger<u8> = Logger::bounded(0);
    assert_eq!(add_subscriber(&mut l, 1), Err(BarelogError::SubscriberListFull));
    assert!(get_subscribers(&l).is_empty());
}

#[test]
fn no_subscriber_silence() {
    let l: Logger<Recorder<'_>> = Logger::growable();
    assert_eq!(log(&l, Level::Fatal, "nobody"), 0);
    assert_eq!(log_at(&l, Level::Fatal, "app", 1, "nobody"), 0);
    let f: Logger<Recorder<'_>> = Logger::fixed_slot();
    assert_eq!(log(&f, Level::Fatal, "nobody"), 0);
    assert_eq!(get_subscriber(&f).map(|s| s.id), None);
}

#[test]
fn message_fidelity() {
    let j = Journal::default();
    let mut l = Logger::growable();
    add_subscriber(&mut l, rec(7, &j)).unwrap();
    log(&l, Level::Warn, "exact text");
    assert_eq!(*j.borrow(), vec![(7, Level::Warn, "exact text".to_string())]);
}

#[test]
fn rendered_message_shape() {
    assert_eq!(render_message("app::net", 42, Level::Info, "up"), "[app::net::42] [INFO] up");
    assert_eq!(render_message("m", 0, Level::Fatal, ""), "[m::0] [FATAL] ");
    assert_eq!(
        render_message("x", 4294967295, Level::Trace, "big"),
        "[x::4294967295] [TRACE] big"
    );
    assert_eq!(render_message("x", 1009, Level::Debug, "d"), "[x::1009] [DEBUG] d");
}

#[test]
fn log_at_renders_and_filters() {
    let j = Journal::default();
    let mut l = Logger::growable();
    add_subscriber(&mut l, rec(1, &j)).unwrap();
    assert_eq!(log_at(&l, Level::Debug, "svc", 3, "hidden"), 0);
    assert!(j.borrow().is_empty());
    assert_eq!(log_at(&l, Level::Error, "svc", 17, "disk full"), 1);
    assert_eq!(
        *j.borrow(),
        vec![(1, Level::Error, "[svc::17] [ERROR] disk full".to_string())]
    );
}

#[test]
fn notify_all_in_order() {
    let j = Journal::default();
    notify_all(&vec![rec(3, &j), rec(1, &j), rec(3, &j)], Level::Trace, "t");
    let got: Vec<u8> = j.borrow().iter().map(|e| e.0).collect();
    assert_eq!(got, vec![3, 1, 3]);
}

#[test]
fn registry_modes() {
    let mut f: Registry<u8> = Registry::fixed_slot();
    assert!(f.is_fixed());
    assert_eq!(f.register(1), Ok(()));
    assert_eq!(f.register(2), Err(BarelogError::SubscriberAlreadySet));
    assert_eq!(f.len(), 1);
    assert_eq!(f.first(), Some(1));
    let mut g: Registry<u8> = Registry::growable();
    assert!(!g.is_fixed());
    assert_eq!(g.first(), None);
    for i in 0..5 {
        assert_eq!(g.register(i), Ok(()));
    }
    assert_eq!(g.snapshot(), vec![0, 1, 2, 3, 4]);
    let mut b: Registry<u8> = Registry::bounded(1);
    assert_eq!(b.register(9), Ok(()));
    assert_eq!(b.register(8), Err(BarelogError::SubscriberListFull));
    assert_eq!(b.snapshot(), vec![9]);
}

#[test]
fn other_error_carries_description() {
    let e = BarelogError::Other("sink closed");
    assert_eq!(e, BarelogError::Other("sink closed"));
    assert_ne!(e, BarelogError::SubscriberListFull);
}
