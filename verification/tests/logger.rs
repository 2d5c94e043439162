use purple_rs::{BufferedRecord, Level, PurpleDebugLevel, PurpleDebugLogger};

#[test]
fn records_more_serious_than_debug_pass() {
    let logger = PurpleDebugLogger;
    assert!(logger.enabled(Level::Error));
    assert!(logger.enabled(Level::Warn));
    assert!(logger.enabled(Level::Info));
    assert!(!logger.enabled(Level::Debug));
    assert!(!logger.enabled(Level::Trace));
}

#[test]
fn enabled_agrees_with_the_log_crate() {
    let logger = PurpleDebugLogger;
    let pairs = [
        (Level::Error, log::Level::Error),
        (Level::Warn, log::Level::Warn),
        (Level::Info, log::Level::Info),
        (Level::Debug, log::Level::Debug),
        (Level::Trace, log::Level::Trace),
    ];
    for (ours, theirs) in pairs {
        assert_eq!(logger.enabled(ours), theirs < log::Level::Debug);
    }
}

#[test]
fn levels_map_to_the_host() {
    let logger = PurpleDebugLogger;
    assert_eq!(logger.log(Level::Error, "t", None, "m").level, PurpleDebugLevel::Error);
    assert_eq!(logger.log(Level::Warn, "t", None, "m").level, PurpleDebugLevel::Warning);
    assert_eq!(logger.log(Level::Info, "t", None, "m").level, PurpleDebugLevel::Info);
    assert_eq!(logger.log(Level::Debug, "t", None, "m").level, PurpleDebugLevel::Misc);
    assert_eq!(logger.log(Level::Trace, "t", None, "m").level, PurpleDebugLevel::Misc);
}

#[test]
fn line_holds_name_and_message() {
    let logger = PurpleDebugLogger;
    let call = logger.log(Level::Info, "purple", Some("plugin::net"), "hello");
    assert_eq!(call.line, "[purple] hello\n");
    assert_eq!(call.category, "");
}

#[test]
fn empty_target_falls_back_to_the_module() {
    let logger = PurpleDebugLogger;
    assert_eq!(logger.log(Level::Info, "", Some("plugin::net"), "up").line, "[plugin::net] up\n");
    assert_eq!(logger.log(Level::Info, "", None, "up").line, "[] up\n");
    assert_eq!(logger.log(Level::Info, "", Some(""), "").line, "[] \n");
}

#[test]
fn flush_takes_everything_in_order() {
    let logger = PurpleDebugLogger;
    let mut buffer = vec![
        BufferedRecord { target: "a".into(), level: Level::Info, message: "one".into() },
        BufferedRecord { target: "b".into(), level: Level::Error, message: "two".into() },
    ];
    let taken = logger.flush(&mut buffer);
    assert!(buffer.is_empty());
    assert_eq!(taken.len(), 2);
    assert_eq!(taken[0].target, "a");
    assert_eq!(taken[0].level, Level::Info);
    assert_eq!(taken[0].message, "one");
    assert_eq!(taken[1].target, "b");
    assert_eq!(taken[1].level, Level::Error);
    assert_eq!(taken[1].message, "two");
    assert!(logger.flush(&mut buffer).is_empty());
}
