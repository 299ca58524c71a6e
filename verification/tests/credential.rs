use dependabot_approve::credential::{
    accept_value, authorization_value, credential_source, missing_credential_notice,
    secret_from_file, Credential,
};
use dependabot_approve::outcome::{exit_code, RunError};

#[test]
fn a_key_is_the_secret_once_trimmed() {
    let source = credential_source(&Some("  s3cr3t\n".to_string()), &None);
    assert_eq!(source, Ok(Credential::Secret("s3cr3t".to_string())));
}

#[test]
fn a_path_names_the_file_to_read() {
    let source = credential_source(&None, &Some(" ./key file.txt".to_string()));
    assert_eq!(source, Ok(Credential::File(" ./key file.txt".to_string())));
}

#[test]
fn no_credential_is_a_configuration_error_with_status_67() {
    let source = credential_source(&None, &None);
    assert_eq!(source, Err(RunError::Config));
    assert_eq!(exit_code(&source.unwrap_err()), 67);
    let notice = missing_credential_notice();
    assert_eq!(notice.text, "either api key (-a) or api key file path (-k) is required");
    assert!(notice.to_error_stream);
}

#[test]
fn two_credentials_are_one_too_many() {
    let source = credential_source(&Some("s3cr3t".to_string()), &Some("key.txt".to_string()));
    assert_eq!(source, Err(RunError::Config));
}

#[test]
fn the_contents_of_a_key_file_are_trimmed() {
    assert_eq!(secret_from_file("s3cr3t\n"), "s3cr3t");
    assert_eq!(secret_from_file("\n\t s3 cr3t \r\n"), "s3 cr3t");
    assert_eq!(secret_from_file(""), "");
}

#[test]
fn headers_carry_the_secret_and_the_api_version() {
    assert_eq!(authorization_value("s3cr3t"), "Bearer s3cr3t");
    assert_eq!(accept_value(), "application/vnd.github.v3+json");
}
