use gx_datalinker::calendar::CivilDate;
use gx_datalinker::schedule::{minute_log, minute_log_plain, refresh_due, uptime_line, WallClock};

fn clock() -> WallClock {
    WallClock { date: CivilDate { year: 2025, month: 7, day: 4 }, hour: 9, minute: 30 }
}

#[test]
fn refresh_every_fifteen_minutes() {
    assert!(refresh_due(0));
    assert!(refresh_due(15));
    assert!(refresh_due(45));
    assert!(!refresh_due(14));
    assert!(!refresh_due(59));
}

#[test]
fn uptime_counts_hours_and_minutes() {
    assert_eq!(uptime_line(0), "Uptime: 0h 0min");
    assert_eq!(uptime_line(3725), "Uptime: 1h 2min");
    assert_eq!(uptime_line(90061), "Uptime: 25h 1min");
    assert_eq!(uptime_line(-3725), "Uptime: -1h -2min");
}

#[test]
fn minute_log_lines() {
    let lines = minute_log(clock(), 3725);
    assert_eq!(lines, vec!["Hora: 09:30", "Data: 04/07/2025", "Uptime: 1h 2min", "---------------"]);
    let plain = minute_log_plain(clock());
    assert_eq!(plain, vec!["Hora: 09:30", "Data: 04/07/2025", "----------------"]);
}
