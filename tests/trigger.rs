use std::cell::RefCell;
use std::rc::Rc;

use alarm::alarm::{Alarm, Armable, Triggerable};
use alarm::alarm_manager::AlarmManager;
use alarm::callback::{Callback, CallbackDoNothing};
use alarm::time::{DateTime, DayOfWeek, WeeklyDate};
use arrayvec::ArrayString;

struct DummyCallback {}

impl Callback for DummyCallback {
    fn call(&mut self) -> bool {
        println!("SQUIK :3");
        return true;
    }
}

/// Records each call in a shared log and answers with a fixed signal.
struct Recorder {
    name: &'static str,
    answer: bool,
    log: Rc<RefCell<Vec<&'static str>>>,
}

impl Callback for Recorder {
    fn call(&mut self) -> bool {
        self.log.borrow_mut().push(self.name);
        self.answer
    }
}

fn at(day_of_week: DayOfWeek, hour: u8, minute: u8, second: u8) -> DateTime {
    DateTime { year: 0, month: 0, day: 0, day_of_week, hour, minute, second }
}

fn recording_alarm(
    date: WeeklyDate,
    duration: u32,
    primary: &'static str,
    answer: bool,
    gentle: &'static str,
    log: &Rc<RefCell<Vec<&'static str>>>,
) -> Alarm<Recorder, Recorder> {
    Alarm::new(
        date,
        ArrayString::<16>::from("descr").unwrap(),
        duration,
        0,
        0,
        Recorder { name: primary, answer, log: Rc::clone(log) },
        Recorder { name: gentle, answer: true, log: Rc::clone(log) },
    )
}

#[test]
fn triggr_test_true() {
    let callback1 = DummyCallback {};
    let callback2 = DummyCallback {};

    let mut alarm = Alarm::new(
        WeeklyDate::new(DayOfWeek::Monday, 0, 0, 10),
        ArrayString::<16>::from("descr").unwrap(),
        30,
        0,
        0,
        callback1,
        callback2,
    );
    let time = at(DayOfWeek::Monday, 0, 0, 20);

    assert_eq!(alarm.trigger(time), true);
}

#[test]
fn triggr_test_false() {
    let callback1 = DummyCallback {};
    let callback2 = DummyCallback {};

    let mut alarm = Alarm::new(
        WeeklyDate::new(DayOfWeek::Monday, 0, 0, 10),
        ArrayString::<16>::from("descr").unwrap(),
        30,
        0,
        0,
        callback1,
        callback2,
    );
    let time = at(DayOfWeek::Monday, 0, 0, 0);

    assert_eq!(alarm.trigger(time), false);
}

#[test]
fn new_alarm_is_armed_and_keeps_its_fields() {
    let alarm = Alarm::new(
        WeeklyDate::new(DayOfWeek::Sunday, 18, 0, 0),
        ArrayString::<16>::from("Poubelle verte !").unwrap(),
        6 * 3600,
        5,
        7,
        CallbackDoNothing::new(),
        CallbackDoNothing::new(),
    );
    assert!(alarm.is_active());
    assert_eq!(alarm.description().as_str(), "Poubelle verte !");
    assert_eq!(alarm.total_duration_sec(), 21600);
    assert_eq!(alarm.intense_duration_sec(), 5);
    assert_eq!(alarm.pause_duration_sec(), 7);
}

#[test]
fn monday_scenario_fires_inside_and_not_around() {
    let log = Rc::new(RefCell::new(Vec::new()));
    let mut alarm =
        recording_alarm(WeeklyDate::new(DayOfWeek::Monday, 0, 0, 10), 30, "buzz", true, "thanks", &log);
    assert!(alarm.is_date_in_activation_period(at(DayOfWeek::Monday, 0, 0, 20)));
    assert!(alarm.trigger(at(DayOfWeek::Monday, 0, 0, 20)));
    assert!(!alarm.is_date_in_activation_period(at(DayOfWeek::Monday, 0, 0, 0)));
    assert!(!alarm.is_date_in_activation_period(at(DayOfWeek::Monday, 0, 0, 41)));
    assert_eq!(*log.borrow(), vec!["buzz"]);
    assert!(alarm.is_active());
}

#[test]
fn window_crossing_the_end_of_the_week() {
    // Saturday 23:59:50 plus 30 s ends on Sunday 00:00:20 of the next week;
    // both endpoints count.
    let alarm = Alarm::new(
        WeeklyDate::new(DayOfWeek::Saturday, 23, 59, 50),
        ArrayString::<16>::from("descr").unwrap(),
        30,
        0,
        0,
        CallbackDoNothing::new(),
        CallbackDoNothing::new(),
    );
    assert!(alarm.is_date_in_activation_period(at(DayOfWeek::Saturday, 23, 59, 55)));
    assert!(alarm.is_date_in_activation_period(at(DayOfWeek::Saturday, 23, 59, 59)));
    assert!(alarm.is_date_in_activation_period(at(DayOfWeek::Sunday, 0, 0, 0)));
    assert!(alarm.is_date_in_activation_period(at(DayOfWeek::Sunday, 0, 0, 19)));
    assert!(alarm.is_date_in_activation_period(at(DayOfWeek::Sunday, 0, 0, 20)));
    assert!(!alarm.is_date_in_activation_period(at(DayOfWeek::Sunday, 0, 0, 21)));
    assert!(alarm.is_date_in_activation_period(at(DayOfWeek::Saturday, 23, 59, 50)));
    assert!(!alarm.is_date_in_activation_period(at(DayOfWeek::Saturday, 23, 59, 49)));
    assert!(!alarm.is_date_in_activation_period(at(DayOfWeek::Wednesday, 12, 0, 0)));
}

#[test]
fn window_opening_at_the_last_second_of_the_week() {
    let log = Rc::new(RefCell::new(Vec::new()));
    let mut alarm =
        recording_alarm(WeeklyDate::new(DayOfWeek::Saturday, 23, 59, 59), 30, "buzz", true, "thanks", &log);
    assert!(alarm.is_date_in_activation_period(at(DayOfWeek::Saturday, 23, 59, 59)));
    assert!(alarm.is_date_in_activation_period(at(DayOfWeek::Sunday, 0, 0, 0)));
    assert!(alarm.is_date_in_activation_period(at(DayOfWeek::Sunday, 0, 0, 29)));
    assert!(!alarm.is_date_in_activation_period(at(DayOfWeek::Sunday, 0, 0, 30)));
    assert!(!alarm.is_date_in_activation_period(at(DayOfWeek::Saturday, 23, 59, 58)));
    assert!(alarm.trigger(at(DayOfWeek::Saturday, 23, 59, 59)));
    assert!(alarm.trigger(at(DayOfWeek::Sunday, 0, 0, 29)));
    assert!(!alarm.trigger(at(DayOfWeek::Sunday, 0, 0, 30)));
    assert_eq!(*log.borrow(), vec!["buzz", "buzz"]);
}

#[test]
fn firing_keeps_the_alarm_fields() {
    let log = Rc::new(RefCell::new(Vec::new()));
    let mut alarm = Alarm::new(
        WeeklyDate::new(DayOfWeek::Monday, 0, 0, 10),
        ArrayString::<16>::from("descr").unwrap(),
        30,
        4,
        9,
        Recorder { name: "buzz", answer: false, log: Rc::clone(&log) },
        Recorder { name: "thanks", answer: true, log: Rc::clone(&log) },
    );
    assert!(alarm.trigger(at(DayOfWeek::Monday, 0, 0, 20)));
    assert!(!alarm.is_active());
    assert_eq!(alarm.description().as_str(), "descr");
    assert_eq!(alarm.total_duration_sec(), 30);
    assert_eq!(alarm.intense_duration_sec(), 4);
    assert_eq!(alarm.pause_duration_sec(), 9);
}

#[test]
fn zero_length_window_holds_only_its_start() {
    let alarm = Alarm::new(
        WeeklyDate::new(DayOfWeek::Friday, 8, 30, 0),
        ArrayString::<16>::from("descr").unwrap(),
        0,
        0,
        0,
        CallbackDoNothing::new(),
        CallbackDoNothing::new(),
    );
    assert!(alarm.is_date_in_activation_period(at(DayOfWeek::Friday, 8, 30, 0)));
    assert!(!alarm.is_date_in_activation_period(at(DayOfWeek::Friday, 8, 29, 59)));
    assert!(!alarm.is_date_in_activation_period(at(DayOfWeek::Friday, 8, 30, 1)));
}

#[test]
fn window_endpoints_and_the_second_after() {
    // Tuesday 10:00:00 for one hour.
    let alarm = Alarm::new(
        WeeklyDate::new(DayOfWeek::Tuesday, 10, 0, 0),
        ArrayString::<16>::from("descr").unwrap(),
        3600,
        0,
        0,
        CallbackDoNothing::new(),
        CallbackDoNothing::new(),
    );
    assert!(alarm.is_date_in_activation_period(at(DayOfWeek::Tuesday, 10, 0, 0)));
    assert!(alarm.is_date_in_activation_period(at(DayOfWeek::Tuesday, 11, 0, 0)));
    assert!(!alarm.is_date_in_activation_period(at(DayOfWeek::Tuesday, 11, 0, 1)));
}

#[test]
fn trigger_outside_window_is_false_whether_armed_or_not() {
    let log = Rc::new(RefCell::new(Vec::new()));
    let mut alarm =
        recording_alarm(WeeklyDate::new(DayOfWeek::Monday, 0, 0, 10), 30, "buzz", false, "thanks", &log);
    assert!(!alarm.trigger(at(DayOfWeek::Monday, 0, 0, 50)));
    assert!(alarm.trigger(at(DayOfWeek::Monday, 0, 0, 20)));
    assert!(!alarm.is_active());
    assert!(!alarm.trigger(at(DayOfWeek::Monday, 0, 0, 50)));
    assert_eq!(*log.borrow(), vec!["buzz", "thanks"]);
}

#[test]
fn abort_disarms_and_silences_the_rest_of_the_window() {
    let log = Rc::new(RefCell::new(Vec::new()));
    let mut alarm =
        recording_alarm(WeeklyDate::new(DayOfWeek::Monday, 0, 0, 10), 30, "buzz", false, "thanks", &log);
    assert!(alarm.trigger(at(DayOfWeek::Monday, 0, 0, 15)));
    assert!(!alarm.is_active());
    assert_eq!(*log.borrow(), vec!["buzz", "thanks"]);
    assert!(!alarm.trigger(at(DayOfWeek::Monday, 0, 0, 20)));
    assert!(!alarm.trigger(at(DayOfWeek::Monday, 0, 0, 40)));
    assert_eq!(*log.borrow(), vec!["buzz", "thanks"]);
}

#[test]
fn continuing_action_keeps_the_alarm_armed() {
    let log = Rc::new(RefCell::new(Vec::new()));
    let mut alarm =
        recording_alarm(WeeklyDate::new(DayOfWeek::Monday, 0, 0, 10), 30, "buzz", true, "thanks", &log);
    assert!(alarm.trigger(at(DayOfWeek::Monday, 0, 0, 15)));
    assert!(alarm.trigger(at(DayOfWeek::Monday, 0, 0, 16)));
    assert!(alarm.is_active());
    assert_eq!(*log.borrow(), vec!["buzz", "buzz"]);
}

#[test]
fn rearm_waits_until_the_window_has_passed() {
    let log = Rc::new(RefCell::new(Vec::new()));
    let mut alarm =
        recording_alarm(WeeklyDate::new(DayOfWeek::Monday, 0, 0, 10), 30, "buzz", false, "thanks", &log);
    alarm.trigger(at(DayOfWeek::Monday, 0, 0, 15));
    assert!(!alarm.is_active());
    alarm.rearm(at(DayOfWeek::Monday, 0, 0, 30));
    assert!(!alarm.is_active());
    alarm.rearm(at(DayOfWeek::Monday, 0, 0, 40));
    assert!(!alarm.is_active());
    alarm.rearm(at(DayOfWeek::Monday, 0, 0, 41));
    assert!(alarm.is_active());
    // Armed again: the next week's window fires once more.
    assert!(alarm.trigger(at(DayOfWeek::Monday, 0, 0, 12)));
    assert_eq!(*log.borrow(), vec!["buzz", "thanks", "buzz", "thanks"]);
}

#[test]
fn rearm_leaves_an_armed_alarm_armed() {
    let log = Rc::new(RefCell::new(Vec::new()));
    let mut alarm =
        recording_alarm(WeeklyDate::new(DayOfWeek::Monday, 0, 0, 10), 30, "buzz", true, "thanks", &log);
    alarm.rearm(at(DayOfWeek::Monday, 0, 0, 20));
    assert!(alarm.is_active());
    alarm.rearm(at(DayOfWeek::Monday, 5, 0, 0));
    assert!(alarm.is_active());
    assert!(log.borrow().is_empty());
}

#[test]
fn manager_visits_alarms_in_insertion_order() {
    let log = Rc::new(RefCell::new(Vec::new()));
    let first =
        recording_alarm(WeeklyDate::new(DayOfWeek::Sunday, 18, 0, 0), 6 * 3600, "green", false, "thanks green", &log);
    let second =
        recording_alarm(WeeklyDate::new(DayOfWeek::Sunday, 17, 0, 0), 6 * 3600, "yellow", true, "thanks yellow", &log);
    let mut manager = AlarmManager::new(vec![first, second]);
    let now = at(DayOfWeek::Sunday, 19, 0, 0);

    manager.rearm_all(&now);
    manager.trigger_all(&now);
    assert_eq!(*log.borrow(), vec!["green", "thanks green", "yellow"]);

    // The first alarm is disarmed inside its window: only the second fires.
    manager.rearm_all(&now);
    manager.trigger_all(&now);
    assert_eq!(*log.borrow(), vec!["green", "thanks green", "yellow", "yellow"]);
}

#[test]
fn manager_rearms_after_the_window_and_fires_next_week() {
    let log = Rc::new(RefCell::new(Vec::new()));
    let first =
        recording_alarm(WeeklyDate::new(DayOfWeek::Wednesday, 18, 0, 0), 60, "a", false, "a off", &log);
    let second =
        recording_alarm(WeeklyDate::new(DayOfWeek::Wednesday, 18, 0, 30), 60, "b", false, "b off", &log);
    let mut manager = AlarmManager::new(vec![first, second]);
    let inside_both = at(DayOfWeek::Wednesday, 18, 0, 45);
    manager.rearm_all(&inside_both);
    manager.trigger_all(&inside_both);
    assert_eq!(*log.borrow(), vec!["a", "a off", "b", "b off"]);

    let later = at(DayOfWeek::Thursday, 0, 0, 0);
    manager.rearm_all(&later);
    manager.trigger_all(&later);
    assert_eq!(log.borrow().len(), 4);

    manager.rearm_all(&inside_both);
    manager.trigger_all(&inside_both);
    assert_eq!(*log.borrow(), vec!["a", "a off", "b", "b off", "a", "a off", "b", "b off"]);
}

#[test]
fn manager_without_alarms_does_nothing() {
    let mut manager: AlarmManager<CallbackDoNothing, CallbackDoNothing> = AlarmManager::new(Vec::new());
    let now = at(DayOfWeek::Monday, 0, 0, 0);
    manager.rearm_all(&now);
    manager.trigger_all(&now);
}

#[test]
fn action_signal_decides_the_armed_state() {
    let log = Rc::new(RefCell::new(Vec::new()));
    let mut alarm =
        recording_alarm(WeeklyDate::new(DayOfWeek::Monday, 0, 0, 10), 30, "buzz", true, "thanks", &log);
    alarm.handle_action_signal(true);
    assert!(alarm.is_active());
    assert!(log.borrow().is_empty());
    alarm.handle_action_signal(false);
    assert!(!alarm.is_active());
    assert_eq!(*log.borrow(), vec!["thanks"]);
}
