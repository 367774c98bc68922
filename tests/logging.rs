use logger::{Fragment, LocalTime, LogLevel, Logger};

fn quiet_logger() -> Logger {
    let mut logger = Logger::new();
    logger.console_threshold = LogLevel::Verbose;
    logger.file_threshold = LogLevel::Verbose;
    logger.use_colors = false;
    logger.include_date = false;
    logger.use_icons_in_file = false;
    logger
}

fn sample_time() -> LocalTime {
    LocalTime { year: 2025, month: 3, day: 7, hour: 9, minute: 5, second: 4, nanosecond: 123_456_789 }
}

fn s(text: &str) -> Fragment {
    Fragment::Str(text.to_string())
}

#[test]
fn test_basic_logging() {
    let mut logger = quiet_logger();
    let out = logger.log_print(LogLevel::Info, &vec![s("Hello"), Fragment::I32(42), Fragment::Bool(true)]);
    assert!(logger.buffer().is_empty());
    assert!(out.console.unwrap().ends_with(" |    INFO | Hello 42 true \n"));
}

#[test]
fn test_hex_logging() {
    let mut logger = quiet_logger();
    let out = logger.log_print(
        LogLevel::Debug,
        &vec![
            Fragment::Hex8(0xABu8),
            Fragment::Hex16(0x1234u16),
            Fragment::Hex32(0xDEADBEEFu32),
            Fragment::Hex64(0xDEADBEEFFEEDC0DEu64),
        ],
    );
    assert!(logger.buffer().is_empty());
    assert!(out.console.unwrap().ends_with("|   DEBUG | 0xAB 0x1234 0xDEADBEEF 0xDEADBEEFFEEDC0DE \n"));
}

#[test]
fn test_pointer_logging() {
    let mut logger = quiet_logger();
    let x = 123u32;
    let shown = format!("{:p}", &x);
    let address = usize::from_str_radix(&shown[2..], 16).unwrap();
    let out = logger.log_print(LogLevel::Info, &vec![Fragment::Ptr(address)]);
    assert!(logger.buffer().is_empty());
    assert!(out.console.unwrap().ends_with(&format!("| {} \n", shown)));
}

#[test]
fn test_file_logging_creates_file() {
    let mut logger = quiet_logger();
    let created = logger.enable_file_logging();
    let out = logger.log_print(LogLevel::Info, &vec![s("File logging test"), Fragment::I32(2025)]);
    assert!(logger.file_logging_enabled());
    let path = logger.log_file_path().clone().unwrap();
    assert_eq!(created, Some(path.clone()));
    assert!(path.starts_with("log_") && path.ends_with(".txt"));
    assert_eq!(path.len(), "log_20250307_090504.txt".len());
    assert!(out.file.unwrap().ends_with(" |    INFO | File logging test 2025 \n"));
}

#[test]
fn test_log_levels() {
    let mut logger = quiet_logger();
    logger.set_console_threshold(LogLevel::Error);
    logger.set_file_threshold(LogLevel::Warning);
    let quiet = logger.log_print(LogLevel::Info, &vec![s("This should not print")]);
    let loud = logger.log_print(LogLevel::Error, &vec![s("This should print")]);
    assert!(logger.buffer().is_empty());
    assert!(quiet.console.is_none());
    assert!(loud.console.unwrap().ends_with("|   ERROR | This should print \n"));
}

#[test]
fn test_logging_all_types() {
    let mut logger = quiet_logger();
    let x = 123;
    let shown = format!("{:p}", &x);
    let address = usize::from_str_radix(&shown[2..], 16).unwrap();
    let out = logger.log_print_at(
        LogLevel::Info,
        &vec![
            s("Hello"),
            Fragment::I8(1),
            Fragment::I16(2),
            Fragment::I32(42),
            Fragment::I64(12345),
            Fragment::U8(0xAB),
            Fragment::U16(0x1234u16),
            Fragment::U32(0xDEADBEEFu32),
            Fragment::U64(0xDEADBEEFFEEDC0DEu64),
            Fragment::Str(format!("{}", 3.14f32)),
            Fragment::Str(format!("{}", 2.71828f64)),
            Fragment::Bool(true),
            Fragment::Ptr(address),
            Fragment::Char('X'),
        ],
        &sample_time(),
    );
    assert!(logger.buffer().is_empty());
    let expected = format!(
        "09:05:04.123456 |    INFO | Hello 1 2 42 12345 171 4660 3735928559 16045690985374400734 3.14 2.71828 true {} X \n",
        shown
    );
    assert_eq!(out.console.unwrap(), expected);
}

#[test]
fn test_file_logging_with_icons() {
    let mut logger = quiet_logger();
    logger.use_icons_in_file = true;
    let created = logger.enable_file_logging_at(&sample_time());
    let out = logger.log_print_at(LogLevel::Warning, &vec![s("Warning with icon")], &sample_time());
    assert!(logger.file_logging_enabled());
    assert_eq!(created.as_deref(), Some("log_20250307_090504.txt"));
    assert_eq!(out.file.unwrap(), "09:05:04.123456 | ⚠️ | Warning with icon \n");
    assert_eq!(out.console.unwrap(), "09:05:04.123456 | WARNING | Warning with icon \n");
}
