use zeroai::email_cron::{email_cron_job, is_email_cron_command, parse_hh_mm, EMAIL_CRON_MARKER};
use zeroai::error::FfiError;

#[test]
fn test_parse_hh_mm_valid() {
    assert_eq!(parse_hh_mm("08:30").unwrap(), (8, 30));
    assert_eq!(parse_hh_mm("00:00").unwrap(), (0, 0));
    assert_eq!(parse_hh_mm("23:59").unwrap(), (23, 59));
}

#[test]
fn test_parse_hh_mm_invalid_format() {
    assert!(parse_hh_mm("0830").is_err());
    assert!(parse_hh_mm("08:30:00").is_err());
    assert!(parse_hh_mm("").is_err());
}

#[test]
fn test_parse_hh_mm_non_numeric() {
    assert!(parse_hh_mm("ab:cd").is_err());
}

#[test]
fn test_email_cron_marker_is_stable() {
    // Guard against accidental marker changes that would orphan jobs.
    assert_eq!(EMAIL_CRON_MARKER, "[email_check_scheduled]");
}

#[test]
fn parse_hh_mm_error_details() {
    assert_eq!(
        parse_hh_mm("0830"),
        Err(FfiError::InvalidArgument { detail: "expected HH:MM, got '0830'".to_owned() })
    );
    assert_eq!(
        parse_hh_mm("ab:30"),
        Err(FfiError::InvalidArgument { detail: "invalid hour in 'ab:30'".to_owned() })
    );
    assert_eq!(
        parse_hh_mm("08:cd"),
        Err(FfiError::InvalidArgument { detail: "invalid minute in '08:cd'".to_owned() })
    );
}

#[test]
fn parse_hh_mm_follows_u8_parsing() {
    // A leading plus sign is accepted, values above 255 are not, and the
    // range of hours and minutes is left to the caller's validation.
    assert_eq!(parse_hh_mm("+7:05").unwrap(), (7, 5));
    assert_eq!(parse_hh_mm("99:255").unwrap(), (99, 255));
    assert!(parse_hh_mm("256:00").is_err());
    assert!(parse_hh_mm(":30").is_err());
    assert!(parse_hh_mm("-1:30").is_err());
}

#[test]
fn email_cron_job_builds_schedule_and_command() {
    let (schedule, command) = email_cron_job("08:30", None).unwrap();
    assert_eq!(schedule, "30 8 * * *");
    assert!(command.starts_with("/prompt [email_check_scheduled] Check the email inbox"));
    assert!(command.ends_with("Timezone context: UTC."));
    assert!(is_email_cron_command(&command));

    let (_, command) = email_cron_job("23:59", Some("America/New_York")).unwrap();
    assert!(command.ends_with("Timezone context: America/New_York."));
    assert!(email_cron_job("noon", None).is_err());
}

#[test]
fn user_jobs_are_not_email_jobs() {
    assert!(!is_email_cron_command("/prompt check the weather"));
    assert!(is_email_cron_command("/prompt [email_check_scheduled] anything"));
}
