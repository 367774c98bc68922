use logger::{Fragment, LocalTime, LogLevel, Logger};

fn quiet_logger() -> Logger {
    let mut logger = Logger::new();
    logger.set_use_colors(false);
    logger.set_include_date(false);
    logger
}

fn time(year: i32, second: u32, nanosecond: u32) -> LocalTime {
    LocalTime { year, month: 12, day: 31, hour: 23, minute: 59, second, nanosecond }
}

const LEVELS: [LogLevel; 7] = [
    LogLevel::Verbose,
    LogLevel::Debug,
    LogLevel::Info,
    LogLevel::Warning,
    LogLevel::Error,
    LogLevel::Fatal,
    LogLevel::Fixed,
];

#[test]
fn flush_empties_buffer_and_resets_level() {
    let mut logger = quiet_logger();
    logger.set_level(LogLevel::Fatal);
    logger.append(Fragment::Str("a".to_string()));
    logger.append_bool(false);
    logger.set_console_threshold(LogLevel::Fixed);
    let out = logger.print_at(&time(2024, 0, 0));
    assert!(out.console.is_none());
    assert!(out.file.is_none());
    assert_eq!(logger.buffer(), "");
    assert_eq!(logger.current_level(), LogLevel::Info);
}

#[test]
fn console_gate_follows_level_order() {
    for (i, level) in LEVELS.iter().enumerate() {
        for (j, threshold) in LEVELS.iter().enumerate() {
            let mut logger = quiet_logger();
            logger.set_console_threshold(*threshold);
            logger.set_file_threshold(LogLevel::Fixed);
            let out = logger.log_print_at(*level, &vec![Fragment::Char('x')], &time(2024, 1, 0));
            assert_eq!(out.console.is_some(), i >= j);
            assert_eq!(level.at_least(threshold), i >= j);
            assert_eq!(*level >= *threshold, i >= j);
            assert_eq!(*level < *threshold, i < j);
            assert_eq!(level.rank_of() as usize, i);
        }
    }
}

#[test]
fn file_gate_uses_file_threshold() {
    let mut logger = quiet_logger();
    logger.enable_file_logging_at(&time(2024, 1, 0));
    logger.set_file_threshold(LogLevel::Warning);
    let low = logger.log_print_at(LogLevel::Info, &vec![Fragment::U8(1)], &time(2024, 2, 0));
    let high = logger.log_print_at(LogLevel::Error, &vec![Fragment::U8(2)], &time(2024, 2, 0));
    assert!(low.file.is_none());
    assert!(low.console.is_some());
    assert_eq!(high.file.unwrap(), "23:59:02.000000 |   ERROR | 2 \n");
}

#[test]
fn enabling_twice_keeps_first_file() {
    let mut logger = quiet_logger();
    let first = logger.enable_file_logging_at(&time(2024, 1, 0));
    let second = logger.enable_file_logging_at(&time(2024, 2, 0));
    assert_eq!(first.as_deref(), Some("log_20241231_235901.txt"));
    assert_eq!(second, None);
    assert_eq!(logger.log_file_path().as_deref(), Some("log_20241231_235901.txt"));
}

#[test]
fn disabling_when_never_enabled_is_harmless() {
    let mut logger = quiet_logger();
    logger.disable_file_logging();
    logger.disable_file_logging();
    assert!(!logger.file_logging_enabled());
    assert_eq!(logger.log_file_path(), &None);
}

#[test]
fn info_line_without_date_or_colors() {
    let mut logger = quiet_logger();
    let out = logger.log_print_at(
        LogLevel::Info,
        &vec![Fragment::Str("Hello".to_string()), Fragment::I32(42), Fragment::Bool(true)],
        &LocalTime { year: 2025, month: 6, day: 1, hour: 8, minute: 7, second: 6, nanosecond: 5_004_000 },
    );
    assert_eq!(out.console.unwrap(), "08:07:06.005004 |    INFO | Hello 42 true \n");
}

#[test]
fn hex32_renders_uppercase_with_prefix() {
    let mut logger = quiet_logger();
    logger.append(Fragment::Hex32(0xDEADBEEF));
    assert_eq!(logger.buffer(), "0xDEADBEEF ");
    logger.append_hex(0x0);
    logger.append_hex(0xABu64);
    assert_eq!(logger.buffer(), "0xDEADBEEF 0x0 0xAB ");
}

#[test]
fn consecutive_records_stay_apart() {
    let shared = std::sync::Mutex::new(quiet_logger());
    let a = {
        let mut guard = shared.lock().unwrap();
        guard.log_print_at(LogLevel::Info, &vec![Fragment::Str("one".to_string()), Fragment::U8(1)], &time(2024, 1, 0))
    };
    let b = {
        let mut guard = shared.lock().unwrap();
        guard.log_print_at(LogLevel::Error, &vec![Fragment::Str("two".to_string())], &time(2024, 2, 0))
    };
    assert_eq!(a.console.unwrap(), "23:59:01.000000 |    INFO | one 1 \n");
    assert_eq!(b.console.unwrap(), "23:59:02.000000 |   ERROR | two \n");
}

#[test]
fn reenabling_opens_a_new_file() {
    let mut logger = quiet_logger();
    let first = logger.enable_file_logging_at(&time(2024, 1, 0)).unwrap();
    logger.disable_file_logging();
    let second = logger.enable_file_logging_at(&time(2024, 2, 0)).unwrap();
    assert_ne!(first, second);
    assert_eq!(second, "log_20241231_235902.txt");
    assert_eq!(logger.log_file_path().as_deref(), Some("log_20241231_235902.txt"));
}

#[test]
fn colored_line_with_date() {
    let mut logger = Logger::new();
    let out = logger.log_print_at(LogLevel::Fatal, &vec![Fragment::Char('✔')], &time(2024, 59, 999_999_999));
    assert_eq!(out.console.unwrap(), "\x1b[95m2024-12-31 23:59:59.999999 |   FATAL | ✔ \n\x1b[0m");
}

#[test]
fn years_outside_four_digits_carry_a_sign() {
    let mut logger = quiet_logger();
    logger.set_include_date(true);
    let out = logger.log_print_at(LogLevel::Info, &vec![], &time(-5, 0, 0));
    assert_eq!(out.console.unwrap(), "-0005-12-31 23:59:00.000000 |    INFO | \n");
    let out = logger.log_print_at(LogLevel::Info, &vec![], &time(12345, 0, 0));
    assert_eq!(out.console.unwrap(), "+12345-12-31 23:59:00.000000 |    INFO | \n");
    let out = logger.log_print_at(LogLevel::Info, &vec![], &time(987, 0, 0));
    assert_eq!(out.console.unwrap(), "0987-12-31 23:59:00.000000 |    INFO | \n");
}

#[test]
fn leap_second_fraction_wraps() {
    let mut logger = quiet_logger();
    let out = logger.log_print_at(LogLevel::Info, &vec![], &time(2024, 59, 1_000_250_000));
    assert_eq!(out.console.unwrap(), "23:59:59.000250 |    INFO | \n");
}

#[test]
fn integer_extremes() {
    let mut logger = quiet_logger();
    logger.append(Fragment::I64(i64::MIN));
    logger.append(Fragment::I8(-8));
    logger.append(Fragment::U64(u64::MAX));
    logger.append(Fragment::I16(0));
    logger.append(Fragment::Hex64(u64::MAX));
    logger.append(Fragment::Ptr(0xbeef));
    assert_eq!(
        logger.buffer(),
        "-9223372036854775808 -8 18446744073709551615 0 0xFFFFFFFFFFFFFFFF 0xbeef "
    );
}

#[test]
fn icons_and_labels_and_colors() {
    let icons = ["💬", "🐞", "ℹ️", "⚠️", "❌", "💀", "✅"];
    let labels = ["VERBOSE", "  DEBUG", "   INFO", "WARNING", "  ERROR", "  FATAL", "  FIXED"];
    for (i, level) in LEVELS.iter().enumerate() {
        assert_eq!(level.icon(), icons[i]);
        assert_eq!(level.label(), labels[i]);
        assert_eq!(level.to_string(), labels[i]);
        assert!(level.color().starts_with("\x1b[9"));
    }
    assert_eq!(LogLevel::Error.color(), "\x1b[91m");
}

#[test]
fn clock_reads_a_valid_time() {
    let now = logger::clock::local_now();
    assert!((1..=12).contains(&now.month));
    assert!((1..=31).contains(&now.day));
    assert!(now.hour <= 23 && now.minute <= 59 && now.second <= 59);
    let mut logger = quiet_logger();
    let out = logger.print();
    assert_eq!(out.console.unwrap().len(), "00:00:00.000000 |    INFO | \n".len());
}
