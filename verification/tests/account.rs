use still_bott::account::{
    allowed_roles, can_confirm_email, can_upsert_email, claims, code_of, confirm_email,
    is_confirmation_code, new_confirmation_code, passed_specified_minutes, register_email,
    ApiError, Email,
};
use still_bott::error::FiringError;
use still_bott::gq::{build_errors, HasuraError};
use still_bott::model::{HasuraUser, Role};
use still_bott::timestamp::Timestamp;

const MINUTE: i128 = 60_000_000_000;

fn at(nanos: i128) -> Timestamp {
    Timestamp { unix_nanos: nanos, offset_seconds: 0 }
}

fn user(confirmed: bool, code: Option<&str>, issued_at: Option<i128>) -> HasuraUser {
    HasuraUser::new(
        String::from("u1"),
        String::from("a@example.com"),
        Role::Basic,
        true,
        at(0),
        confirmed,
        None,
        code.map(String::from),
        issued_at.map(at),
    )
}

#[test]
fn minutes_pass_strictly() {
    assert!(!passed_specified_minutes(at(0), at(5 * MINUTE), 5));
    assert!(passed_specified_minutes(at(0), at(5 * MINUTE + 1), 5));
    assert!(!passed_specified_minutes(at(10), at(0), 0));
    assert!(passed_specified_minutes(at(0), at(1), 0));
    assert!(passed_specified_minutes(at(i128::MIN), at(i128::MAX), u32::MAX));
    assert!(!passed_specified_minutes(at(i128::MAX), at(i128::MIN), 0));
}

#[test]
fn new_code_after_five_minutes() {
    assert!(can_upsert_email(&None, at(0)));
    assert!(can_upsert_email(&Some(user(false, None, None)), at(0)));
    let sent = Some(user(false, Some("123456"), Some(1_000)));
    assert!(!can_upsert_email(&sent, at(1_000 + 5 * MINUTE)));
    assert!(can_upsert_email(&sent, at(1_001 + 5 * MINUTE)));
}

#[test]
fn code_is_good_for_ten_minutes() {
    assert!(can_confirm_email(at(1_000), at(1_000 + 10 * MINUTE)));
    assert!(!can_confirm_email(at(1_000), at(1_001 + 10 * MINUTE)));
    assert!(can_confirm_email(at(1_000), at(0)));
}

#[test]
fn code_form() {
    assert!(is_confirmation_code("123456"));
    assert!(is_confirmation_code("000000"));
    assert!(!is_confirmation_code("12345"));
    assert!(!is_confirmation_code("1234567"));
    assert!(!is_confirmation_code("12345a"));
    assert!(!is_confirmation_code(""));
    // Six bytes of numeric characters that are no digits.
    assert!(is_confirmation_code("²²²"));
    assert!(!is_confirmation_code("１２３４５６"));
}

#[test]
fn confirmation_answers_in_order() {
    let email = String::from("a@example.com");
    let code = String::from("123456");
    let now = at(2_000);
    let good = Some(user(false, Some("123456"), Some(1_000)));
    assert_eq!(confirm_email(&good, &email, &code, now), Ok(()));
    assert_eq!(
        confirm_email(&good, &email, &String::from("12345x"), now),
        Err(ApiError::InvalidCode)
    );
    assert_eq!(confirm_email(&None, &email, &code, now), Err(ApiError::UserNotFound));
    // The form of the code is tested before the user is looked at.
    assert_eq!(confirm_email(&None, &email, &String::from("1"), now), Err(ApiError::InvalidCode));
    assert_eq!(
        confirm_email(&Some(user(true, Some("123456"), Some(1_000))), &email, &code, now),
        Err(ApiError::PermissionDenied)
    );
    assert_eq!(
        confirm_email(&Some(user(false, None, Some(1_000))), &email, &code, now),
        Err(ApiError::CodeNotRegistered)
    );
    assert_eq!(
        confirm_email(&Some(user(false, Some("123456"), None)), &email, &code, now),
        Err(ApiError::CodeNotRegistered)
    );
    assert_eq!(
        confirm_email(&good, &email, &code, at(1_001 + 10 * MINUTE)),
        Err(ApiError::CodeExpired)
    );
    assert_eq!(
        confirm_email(&good, &email, &String::from("654321"), now),
        Err(ApiError::CodeNotMatch)
    );
    assert_eq!(
        confirm_email(&good, &String::from("b@example.com"), &code, now),
        Err(ApiError::CodeNotMatch)
    );
    // An expired code is reported as expired even if it does not match.
    assert_eq!(
        confirm_email(&good, &email, &String::from("654321"), at(1_001 + 10 * MINUTE)),
        Err(ApiError::CodeExpired)
    );
}

#[test]
fn registration_answers() {
    let now = at(1_000 + 5 * MINUTE);
    assert_eq!(register_email(&None, "a@example.com", now), Ok(()));
    assert_eq!(register_email(&None, "", now), Err(ApiError::InvalidEmail));
    let sent = Some(user(false, Some("123456"), Some(1_000)));
    assert_eq!(register_email(&sent, "a@example.com", now), Err(ApiError::UpdateEmailProhibited));
    assert_eq!(register_email(&sent, "a@example.com", at(1_001 + 5 * MINUTE)), Ok(()));
    assert_eq!(register_email(&sent, "", at(1_001 + 5 * MINUTE)), Err(ApiError::InvalidEmail));
}

#[test]
fn roles_include_the_lesser_ones() {
    assert_eq!(allowed_roles(Role::Anonymous), vec![Role::Anonymous]);
    assert_eq!(allowed_roles(Role::Basic), vec![Role::Anonymous, Role::Basic]);
    assert_eq!(allowed_roles(Role::Premium), vec![Role::Anonymous, Role::Basic, Role::Premium]);
}

#[test]
fn claims_by_what_the_store_knows() {
    assert!(matches!(claims(None), (Role::Anonymous, Email::Unregistered)));
    assert!(matches!(
        claims(Some(user(false, None, None))),
        (Role::Basic, Email::Unconfirmed(ref e)) if e == "a@example.com"
    ));
    assert!(matches!(
        claims(Some(user(true, None, None))),
        (Role::Basic, Email::Confirmed(ref e)) if e == "a@example.com"
    ));
}

#[test]
fn code_is_the_six_digits_of_its_number() {
    assert_eq!(code_of(100_000), "100000");
    assert_eq!(code_of(999_999), "999999");
    assert_eq!(code_of(120_034), "120034");
    assert_eq!(code_of(987_654), "987654");
    // Of a longer number the last six digits, of a shorter one with zeros in front.
    assert_eq!(code_of(4_000_000_123), "000123");
    assert_eq!(code_of(7), "000007");
}

#[test]
fn new_codes_have_the_form_of_a_code() {
    let mut seen = std::collections::HashSet::new();
    for _ in 0..200 {
        let code = new_confirmation_code();
        assert_eq!(code.len(), 6);
        assert!(code.chars().all(|c| c.is_ascii_digit()));
        assert!(!code.starts_with('0'));
        assert!(is_confirmation_code(&code));
        seen.insert(code);
    }
    assert!(seen.len() > 150);
}

#[test]
fn first_error_of_an_answer_counts() {
    assert!(matches!(build_errors(None), HasuraError::DataNotFound));
    assert!(matches!(build_errors(Some(vec![])), HasuraError::DataNotFound));
    let e = build_errors(Some(vec![String::from("first"), String::from("second")]));
    assert!(matches!(e, HasuraError::Hasura { ref message } if message == "first"));
}

#[test]
fn store_failures_as_firing_errors() {
    assert_eq!(HasuraError::Network.to_firing_error(), FiringError::Network);
    assert_eq!(HasuraError::SessionNotFound.to_firing_error(), FiringError::SessionUnavailable);
    assert_eq!(HasuraError::DataNotFound.to_firing_error(), FiringError::UpstreamData);
    assert_eq!(
        HasuraError::Hasura { message: String::from("m") }.to_firing_error(),
        FiringError::UpstreamData
    );
    assert_eq!(
        HasuraError::Whatever { message: String::from("m") }.to_firing_error(),
        FiringError::UpstreamData
    );
}
