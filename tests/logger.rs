use aid_logger::clock::{next_boundary, LATEST_SECS};
use aid_logger::dispatch::{console_line, file_line};
use aid_logger::rotation::archive_path;
use aid_logger::{
    ArchiveDurantion, Level, LogFileBuild, Logger, Rotation, RotationError,
};

fn local_secs(y: i32, mo: u32, d: u32, h: u32, mi: u32, s: u32) -> i64 {
    chrono::NaiveDate::from_ymd_opt(y, mo, d)
        .unwrap()
        .and_hms_opt(h, mi, s)
        .unwrap()
        .and_utc()
        .timestamp()
}

fn file_target(paths: Vec<&str>, how_long: Option<ArchiveDurantion>) -> aid_logger::LogFile {
    let b = LogFileBuild::new()
        .paths(paths.into_iter().map(|p| p.to_string()).collect())
        .archive(true);
    match how_long {
        Some(d) => b.how_long(d).build(),
        None => b.build(),
    }
}

#[test]
fn next_boundary_frozen_clock_one_hour() {
    let now = local_secs(2024, 3, 17, 14, 5, 0);
    assert_eq!(
        next_boundary(now, ArchiveDurantion::OneHour),
        local_secs(2024, 3, 17, 15, 0, 0)
    );
}

#[test]
fn rotation_frozen_clock_archived_name() {
    let now = local_secs(2024, 3, 17, 14, 5, 0);
    let file = file_target(vec!["/tmp/app.log"], Some(ArchiveDurantion::OneHour));
    let mut r = Rotation::start(&file, now).unwrap().unwrap();
    assert_eq!(r.next, local_secs(2024, 3, 17, 15, 0, 0));
    assert_eq!(r.wait_secs(), 55 * 60);
    let renames = r.rotate().unwrap();
    assert_eq!(renames.len(), 1);
    assert_eq!(renames[0].from, "/tmp/app.log");
    assert_eq!(renames[0].to, "/tmp/app2024031715.log");
}

#[test]
fn next_boundary_on_boundary_is_one_interval_later() {
    let now = local_secs(2024, 3, 17, 15, 0, 0);
    assert_eq!(
        next_boundary(now, ArchiveDurantion::ThreeHour),
        local_secs(2024, 3, 17, 18, 0, 0)
    );
    assert_eq!(
        next_boundary(now, ArchiveDurantion::OneDay),
        local_secs(2024, 3, 18, 15, 0, 0)
    );
    assert_eq!(
        next_boundary(local_secs(2024, 3, 17, 23, 59, 59), ArchiveDurantion::SixHour),
        local_secs(2024, 3, 18, 5, 0, 0)
    );
}

#[test]
fn next_boundary_is_later_and_aligned() {
    for now in [0i64, 1, 3599, 3600, 1_710_684_300, LATEST_SECS] {
        for d in [
            ArchiveDurantion::OneHour,
            ArchiveDurantion::ThreeHour,
            ArchiveDurantion::SixHour,
            ArchiveDurantion::TwelveHour,
            ArchiveDurantion::OneDay,
        ] {
            let b = next_boundary(now, d);
            assert!(b > now);
            assert_eq!(b % 3600, 0);
            assert_eq!(b - (now - now % 3600), d.get_durantion());
        }
    }
}

#[test]
fn interval_lengths() {
    assert_eq!(ArchiveDurantion::OneHour.get_durantion(), 3600);
    assert_eq!(ArchiveDurantion::ThreeHour.get_durantion(), 10800);
    assert_eq!(ArchiveDurantion::SixHour.get_durantion(), 21600);
    assert_eq!(ArchiveDurantion::TwelveHour.get_durantion(), 43200);
    assert_eq!(ArchiveDurantion::OneDay.get_durantion(), 86400);
}

#[test]
fn consecutive_rotations_differ_in_stamp_only() {
    let now = local_secs(2024, 3, 17, 14, 5, 0);
    let file = file_target(vec!["/var/log/app.log"], Some(ArchiveDurantion::ThreeHour));
    let mut r = Rotation::start(&file, now).unwrap().unwrap();
    let first = r.rotate().unwrap();
    assert_eq!(r.wait_secs(), 3 * 3600);
    let second = r.rotate().unwrap();
    assert_eq!(first[0].to, "/var/log/app2024031717.log");
    assert_eq!(second[0].to, "/var/log/app2024031720.log");
    assert_eq!(first[0].from, second[0].from);
}

#[test]
fn rotation_two_paths_one_missing_directory() {
    let now = local_secs(2024, 3, 17, 14, 5, 0);
    let file = file_target(
        vec!["/tmp/app.log", "/no/such/dir/app.log"],
        Some(ArchiveDurantion::OneHour),
    );
    let mut r = Rotation::start(&file, now).unwrap().unwrap();
    let renames = r.rotate().unwrap();
    assert_eq!(renames.len(), 2);
    assert_eq!(renames[0].to, "/tmp/app2024031715.log");
    assert_eq!(renames[1].to, "/no/such/dir/app2024031715.log");
}

#[test]
fn rotation_default_interval_is_three_hours() {
    let now = local_secs(2024, 3, 17, 14, 5, 0);
    let file = file_target(vec!["a.log"], None);
    assert_eq!(file.how_long, Some(ArchiveDurantion::ThreeHour));
    let r = Rotation::start(&file, now).unwrap().unwrap();
    assert_eq!(r.next, local_secs(2024, 3, 17, 17, 0, 0));
}

#[test]
fn rotation_not_started_without_archive() {
    let file = LogFileBuild::new().paths(vec!["a.log".to_string()]).build();
    assert!(Rotation::start(&file, 0).unwrap().is_none());
}

#[test]
fn rotation_rejects_short_path() {
    let file = file_target(vec!["a.log", "log", "b.log"], None);
    assert_eq!(Rotation::start(&file, 0).unwrap_err(), RotationError::BadPath(1));
}

#[test]
fn rotation_stops_past_latest_instant() {
    let file = file_target(vec!["a.log"], Some(ArchiveDurantion::OneDay));
    let mut r = Rotation::start(&file, LATEST_SECS).unwrap().unwrap();
    let (current, next) = (r.current, r.next);
    assert_eq!(r.rotate().unwrap_err(), RotationError::ClockOutOfRange);
    assert_eq!((r.current, r.next), (current, next));
}

#[test]
fn archive_path_keeps_directory_and_multibyte_stem() {
    let p = archive_path(&"/日志/应用.log".to_string(), &"2024031715".to_string());
    assert_eq!(p, "/日志/应用2024031715.log");
}

#[test]
fn admits_severities_up_to_maximum() {
    let all = [Level::Error, Level::Warn, Level::Info, Level::Debug, Level::Trace];
    for (mi, m) in all.iter().enumerate() {
        for (si, s) in all.iter().enumerate() {
            assert_eq!(m.admits(*s), si <= mi);
        }
    }
    assert!(Level::Warn.admits(Level::Error));
    assert!(Level::Warn.admits(Level::Warn));
    assert!(!Level::Warn.admits(Level::Info));
    assert!(!Level::Warn.admits(Level::Debug));
    assert!(!Level::Warn.admits(Level::Trace));
}

#[test]
fn console_line_format() {
    assert_eq!(
        console_line(Level::Warn, "2024-03-17 14:05:00", "app", "disk low"),
        "\u{1B}[93m[ WARN][2024-03-17 14:05:00] app: disk low\u{1B}[0m"
    );
    assert_eq!(
        console_line(Level::Error, "t", "m", "x"),
        "\u{1B}[31m[ERROR][t] m: x\u{1B}[0m"
    );
    assert_eq!(console_line(Level::Info, "t", "m", "x"), "\u{1B}[34m[ INFO][t] m: x\u{1B}[0m");
    assert_eq!(console_line(Level::Debug, "t", "m", "x"), "\u{1B}[32m[DEBUG][t] m: x\u{1B}[0m");
    assert_eq!(console_line(Level::Trace, "t", "m", "x"), "\u{1B}[90m[TRACE][t] m: x\u{1B}[0m");
}

#[test]
fn file_line_strips_escape_sequences() {
    let console = console_line(Level::Info, "2024-03-17 14:05:00", "app", "hello");
    assert_eq!(
        file_line(&console).unwrap(),
        "[ INFO][2024-03-17 14:05:00] app: hello\n"
    );
    assert_eq!(file_line("a\u{1B}[1;2Kb\u{1B}[m").unwrap(), "ab\n");
    assert_eq!(file_line("").unwrap(), "\n");
}

#[test]
fn emission_maximum_error_without_print() {
    let now = local_secs(2024, 3, 17, 14, 5, 0);
    let logger = Logger::new()
        .level(Level::Error)
        .print(false)
        .log_file_config(file_target(vec!["/tmp/app.log"], None));
    assert!(logger.emission(Level::Warn, now, "app", "careful").unwrap().is_none());
    let e = logger.emission(Level::Error, now, "app", "boom").unwrap().unwrap();
    assert!(e.console.is_none());
    assert_eq!(e.paths, vec!["/tmp/app.log".to_string()]);
    assert_eq!(e.file_line, "[ERROR][2024-03-17 14:05:00] app: boom\n");
    assert_eq!(e.file_line.matches('\n').count(), 1);
}

#[test]
fn emission_round_trip_matches_console() {
    let now = local_secs(2024, 3, 17, 14, 5, 0);
    let logger = Logger::new()
        .level(Level::Trace)
        .log_file_config(file_target(vec!["/tmp/a.log", "/tmp/a.log"], None));
    let e = logger.emission(Level::Debug, now, "core", "value 7").unwrap().unwrap();
    let console = e.console.unwrap();
    assert_eq!(console, "\u{1B}[32m[DEBUG][2024-03-17 14:05:00] core: value 7\u{1B}[0m");
    assert_eq!(e.file_line, format!("{}\n", &console[5..console.len() - 4]));
    assert_eq!(e.paths.len(), 2);
}

#[test]
fn emission_default_configuration() {
    let logger = Logger::new();
    assert_eq!(logger.max_level(), Level::Info);
    assert_eq!(logger.print, Some(true));
    assert!(logger.emission(Level::Debug, 0, "m", "x").unwrap().is_none());
    let e = logger.emission(Level::Info, 0, "m", "x").unwrap().unwrap();
    assert_eq!(e.console.unwrap(), "\u{1B}[34m[ INFO][1970-01-01 00:00:00] m: x\u{1B}[0m");
    assert!(e.paths.is_empty());
}

#[test]
fn builders_set_fields() {
    let b = LogFileBuild::new();
    assert!(!b.archive && b.paths.is_empty() && b.how_long.is_none());
    let f = LogFileBuild::new()
        .archive(true)
        .paths(vec!["x.log".to_string()])
        .how_long(ArchiveDurantion::TwelveHour)
        .build();
    assert!(f.archive);
    assert_eq!(f.paths, vec!["x.log".to_string()]);
    assert_eq!(f.how_long, Some(ArchiveDurantion::TwelveHour));
    let l = Logger::default().level(Level::Debug).print(false);
    assert_eq!(l.level, Some(Level::Debug));
    assert_eq!(l.print, Some(false));
    assert!(l.log_file_config.is_none());
}

#[test]
fn next_boundary_before_epoch() {
    assert_eq!(next_boundary(-1, ArchiveDurantion::OneHour), 0);
    assert_eq!(next_boundary(-3600, ArchiveDurantion::OneHour), 0);
    assert_eq!(next_boundary(-3601, ArchiveDurantion::ThreeHour), 3600);
}
