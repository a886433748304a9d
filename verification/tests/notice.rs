use skinner::notice::{log_level, Level, Notice};

#[test]
fn verbosity_raises_the_level() {
    assert_eq!(log_level(0), Level::Error);
    assert_eq!(log_level(1), Level::Info);
    assert_eq!(log_level(2), Level::Debug);
    assert_eq!(log_level(255), Level::Debug);
}

#[test]
fn notice_holds_level_and_message() {
    let notice = Notice::new(Level::Info, "hello".to_string());
    assert_eq!(notice, Notice { level: Level::Info, message: "hello".to_string() });
}
