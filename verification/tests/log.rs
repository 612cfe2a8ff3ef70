use tdjson::log::{
    custom_level, log_file_outcome, set_log_file, set_log_verbosity_level, LogError,
    OutOfRangeError, VerbosityLevel, LOG_FILE_TAKEN, MAX_CUSTOM_LEVEL, MIN_CUSTOM_LEVEL,
};

#[test]
fn fatal_errors_is_level_zero() {
    assert_eq!(set_log_verbosity_level(VerbosityLevel::FatalErrors), Ok(0));
}

#[test]
fn verbose_is_level_five() {
    assert_eq!(set_log_verbosity_level(VerbosityLevel::Verbose), Ok(5));
}

#[test]
fn named_levels_have_fixed_numbers() {
    assert_eq!(set_log_verbosity_level(VerbosityLevel::Errors), Ok(1));
    assert_eq!(set_log_verbosity_level(VerbosityLevel::Warnings), Ok(2));
    assert_eq!(set_log_verbosity_level(VerbosityLevel::Information), Ok(3));
    assert_eq!(set_log_verbosity_level(VerbosityLevel::Debug), Ok(4));
}

#[test]
fn custom_level_above_the_band_is_refused() {
    assert_eq!(
        set_log_verbosity_level(VerbosityLevel::Custom(1025)),
        Err(LogError::OutOfRangeError(OutOfRangeError(1025)))
    );
}

#[test]
fn custom_level_zero_is_refused() {
    assert_eq!(
        set_log_verbosity_level(VerbosityLevel::Custom(0)),
        Err(LogError::OutOfRangeError(OutOfRangeError(0)))
    );
}

#[test]
fn custom_level_below_zero_is_refused() {
    assert_eq!(
        set_log_verbosity_level(VerbosityLevel::Custom(-1)),
        Err(LogError::OutOfRangeError(OutOfRangeError(-1)))
    );
    assert_eq!(
        set_log_verbosity_level(VerbosityLevel::Custom(i32::MIN)),
        Err(LogError::OutOfRangeError(OutOfRangeError(i32::MIN)))
    );
}

#[test]
fn custom_levels_at_the_ends_of_the_band_are_accepted() {
    assert_eq!(set_log_verbosity_level(VerbosityLevel::Custom(1)), Ok(1));
    assert_eq!(set_log_verbosity_level(VerbosityLevel::Custom(5)), Ok(5));
    assert_eq!(set_log_verbosity_level(VerbosityLevel::Custom(1024)), Ok(1024));
}

#[test]
fn band_is_one_to_1024() {
    assert_eq!(MIN_CUSTOM_LEVEL, 1);
    assert_eq!(MAX_CUSTOM_LEVEL, 1024);
    assert_eq!(custom_level(1), Ok(1));
    assert_eq!(custom_level(1024), Ok(1024));
    assert_eq!(custom_level(0), Err(OutOfRangeError(0)));
    assert_eq!(custom_level(1025), Err(OutOfRangeError(1025)));
    assert_eq!(custom_level(i32::MAX), Err(OutOfRangeError(i32::MAX)));
}

#[test]
fn log_file_path_is_kept_byte_for_byte() {
    let text = set_log_file("/var/log/td.log").unwrap();
    assert_eq!(text.as_bytes(), b"/var/log/td.log");
    assert_eq!(text.into_bytes_with_nul(), b"/var/log/td.log\0".to_vec());
}

#[test]
fn log_file_path_with_zero_byte_is_refused() {
    match set_log_file("/var/log\0/td.log") {
        Err(LogError::CStringError(nul)) => assert_eq!(nul.nul_position(), 8),
        other => panic!("not refused: {:?}", other),
    }
}

#[test]
fn engine_took_the_log_file() {
    assert_eq!(LOG_FILE_TAKEN, 1);
    assert_eq!(log_file_outcome(1), Ok(()));
}

#[test]
fn engine_did_not_take_the_log_file() {
    assert_eq!(log_file_outcome(0), Err(LogError::TDLibError));
    assert_eq!(log_file_outcome(-1), Err(LogError::TDLibError));
    assert_eq!(log_file_outcome(2), Err(LogError::TDLibError));
}
