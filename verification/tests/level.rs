use service::level::LogLevel;

#[test]
fn level_filter_of_each_level() {
    assert_eq!(LogLevel::Trace.level_filter(), log::LevelFilter::Trace);
    assert_eq!(LogLevel::Debug.level_filter(), log::LevelFilter::Debug);
    assert_eq!(LogLevel::Info.level_filter(), log::LevelFilter::Info);
    assert_eq!(LogLevel::Warning.level_filter(), log::LevelFilter::Warn);
    assert_eq!(LogLevel::Error.level_filter(), log::LevelFilter::Error);
}

#[test]
fn level_of_each_level() {
    assert_eq!(LogLevel::Trace.level(), log::Level::Trace);
    assert_eq!(LogLevel::Debug.level(), log::Level::Debug);
    assert_eq!(LogLevel::Info.level(), log::Level::Info);
    assert_eq!(LogLevel::Warning.level(), log::Level::Warn);
    assert_eq!(LogLevel::Error.level(), log::Level::Error);
}

#[test]
fn level_and_filter_agree() {
    for level in [
        LogLevel::Trace,
        LogLevel::Debug,
        LogLevel::Info,
        LogLevel::Warning,
        LogLevel::Error,
    ] {
        assert_eq!(level.level().to_level_filter(), level.level_filter());
    }
}

#[test]
fn default_level_is_info() {
    assert_eq!(LogLevel::default(), LogLevel::Info);
}

#[test]
fn the_crate_root_names_the_level() {
    assert_eq!(service::LogLevel::Warning.level(), log::Level::Warn);
}
