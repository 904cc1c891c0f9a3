//! A user's account: registering and confirming an e-mail address, and the
//! roles a user's web token carries.
//!
//! An address is confirmed with a code of six digits that is sent to it.
//! A new code can be asked for five minutes after the last one at the
//! earliest, and a code can be used for ten minutes.
use crate::gq::digit_char;
use crate::model::{HasuraUser, Role};
use crate::random::draw_in_range;
use crate::timestamp::Timestamp;
use vstd::prelude::*;
use vstd::string::StrSliceExecFns;
use vstd::string::StringExecFns;

verus! {

/// Minutes that have to pass before a new code can be asked for.
pub const RESEND_AFTER_MINUTES: u32 = 5;

/// Minutes for which a code can be used.
pub const CODE_VALID_MINUTES: u32 = 10;

/// Nanoseconds in one minute.
pub const NANOS_PER_MINUTE: i128 = 60_000_000_000;

/// Why a request on an account is turned down.
#[derive(Clone, Copy, Debug, PartialEq, Eq, Structural)]
pub enum ApiError {
    /// The data store knows no such user.
    UserNotFound,
    /// The address is confirmed already.
    PermissionDenied,
    /// The address is empty.
    InvalidEmail,
    /// The code is not made of six digits.
    InvalidCode,
    /// The code or the address is not the one that was registered.
    CodeNotMatch,
    /// No code was sent to the user.
    CodeNotRegistered,
    /// The code was sent more than ten minutes ago.
    CodeExpired,
    /// The last code was sent less than five minutes ago.
    UpdateEmailProhibited,
}

/// Whether a character counts as numeric for Rust's standard library.
pub uninterp spec fn is_numeric_char(c: char) -> bool;

/// `char::is_numeric`. The contract claims only that the outcome is the
/// one named `is_numeric_char` for this character.
pub assume_specification[ char::is_numeric ](c: char) -> (r: bool)
    ensures
        r == is_numeric_char(c),
;

/// Whether more than `minutes` minutes lie between `issued_at` and `now`.
pub open spec fn has_passed(issued_at: Timestamp, now: Timestamp, minutes: int) -> bool {
    now.unix_nanos - issued_at.unix_nanos > minutes * 60_000_000_000
}

/// Whether a code can be sent to the user now: the user is new, has never
/// been sent a code, or was sent the last one more than five minutes ago.
pub open spec fn may_upsert_email(user: Option<HasuraUser>, now: Timestamp) -> bool {
    match user {
        Some(user) => match user.email_confirm_code_issued_at {
            Some(issued_at) => has_passed(issued_at, now, 5),
            None => true,
        },
        None => true,
    }
}

/// Whether a text has the form of a confirmation code: six bytes long in
/// UTF-8, every character numeric.
pub open spec fn has_code_form(code: Seq<char>) -> bool {
    vstd::utf8::encode_utf8(code).len() == 6 && forall|i: int|
        0 <= i < code.len() ==> is_numeric_char(#[trigger] code[i])
}

/// The answer to a request to confirm `email` with `code` at `now`.
///
/// The code must have the form of a code; the user must exist and must not
/// be confirmed yet; a code must have been sent, not more than ten minutes
/// ago; and code and address must be the registered ones. The conditions
/// are tested in this order, and the first that fails gives the error.
pub open spec fn confirmation(
    user: Option<HasuraUser>,
    email: String,
    code: String,
    now: Timestamp,
) -> Result<(), ApiError> {
    if !has_code_form(code@) {
        Err(ApiError::InvalidCode)
    } else {
        match user {
            None => Err(ApiError::UserNotFound),
            Some(user) => if user.email_confirmed {
                Err(ApiError::PermissionDenied)
            } else {
                match (user.email_confirm_code, user.email_confirm_code_issued_at) {
                    (Some(sent), Some(issued_at)) => if has_passed(issued_at, now, 10) {
                        Err(ApiError::CodeExpired)
                    } else if sent@ == code@ && user.email@ == email@ {
                        Ok(())
                    } else {
                        Err(ApiError::CodeNotMatch)
                    },
                    _ => Err(ApiError::CodeNotRegistered),
                }
            },
        }
    }
}

/// The answer to a request to register `email` at `now`: an empty address
/// is invalid, and a user who was sent a code less than five minutes ago
/// may not ask for another.
pub open spec fn registration(user: Option<HasuraUser>, email: Seq<char>, now: Timestamp) -> Result<
    (),
    ApiError,
> {
    if email.len() == 0 {
        Err(ApiError::InvalidEmail)
    } else if may_upsert_email(user, now) {
        Ok(())
    } else {
        Err(ApiError::UpdateEmailProhibited)
    }
}

/// The roles that a user of `role` may act in: the role itself and every
/// lesser one, from the least up.
pub open spec fn roles_up_to(role: Role) -> Seq<Role> {
    match role {
        Role::Anonymous => seq![Role::Anonymous],
        Role::Basic => seq![Role::Anonymous, Role::Basic],
        Role::Premium => seq![Role::Anonymous, Role::Basic, Role::Premium],
    }
}

/// What is known of a user's e-mail address.
#[derive(Clone, Debug)]
pub enum Email {
    /// The user has registered no address.
    Unregistered,
    /// The user has registered this address and not confirmed it.
    Unconfirmed(String),
    /// The user has confirmed this address.
    Confirmed(String),
}

/// The role and e-mail state that a user's web token carries: a user the
/// data store does not know is anonymous and unregistered.
pub open spec fn claims_of(user: Option<HasuraUser>) -> (Role, Email) {
    match user {
        Some(user) => if user.email_confirmed {
            (user.role, Email::Confirmed(user.email))
        } else {
            (user.role, Email::Unconfirmed(user.email))
        },
        None => (Role::Anonymous, Email::Unregistered),
    }
}

/// The last six decimal digits of a number.
pub open spec fn six_digits(n: int) -> Seq<char> {
    seq![
        digit_char(n / 100_000 % 10),
        digit_char(n / 10_000 % 10),
        digit_char(n / 1_000 % 10),
        digit_char(n / 100 % 10),
        digit_char(n / 10 % 10),
        digit_char(n % 10),
    ]
}

/// The text of the mail that carries a confirmation code.
pub open spec fn mail_text(code: Seq<char>) -> Seq<char> {
    "10分以内に下記の登録コード\n\n"@ + code + "\n\nを入力してください"@
}

/// The text of the mail that carries `code`.
pub fn confirmation_mail_text(code: &str) -> (r: String)
    ensures
        r@ == mail_text(code@),
{
    let mut out = String::from_str("10分以内に下記の登録コード\n\n");
    out.append(code);
    out.append("\n\nを入力してください");
    out
}

/// Whether more than `minutes` minutes lie between `issued_at` and `now`.
pub fn passed_specified_minutes(issued_at: Timestamp, now: Timestamp, minutes: u32) -> (r: bool)
    ensures
        r == has_passed(issued_at, now, minutes as int),
{
    let bound: i128 = minutes as i128 * 60_000_000_000;
    let a = issued_at.unix_nanos;
    let b = now.unix_nanos;
    if a < 0 && b >= 0 && b > i128::MAX + a {
        // `now` is further ahead than the machine's numbers can say.
        true
    } else if a > 0 && b < 0 && b < i128::MIN + a {
        // `now` is further behind than the machine's numbers can say.
        false
    } else {
        b - a > bound
    }
}

/// Whether a code can be sent to the user now; see `may_upsert_email`.
pub fn can_upsert_email(user: &Option<HasuraUser>, now: Timestamp) -> (r: bool)
    ensures
        r == may_upsert_email(*user, now),
{
    match user {
        Some(user) => match user.email_confirm_code_issued_at {
            Some(issued_at) => passed_specified_minutes(issued_at, now, RESEND_AFTER_MINUTES),
            None => true,
        },
        None => true,
    }
}

/// Whether a code that was sent at `issued_at` can still be used at `now`.
pub fn can_confirm_email(issued_at: Timestamp, now: Timestamp) -> (r: bool)
    ensures
        r == !has_passed(issued_at, now, 10),
{
    !passed_specified_minutes(issued_at, now, CODE_VALID_MINUTES)
}

/// Whether `code` has the form of a confirmation code.
pub fn is_confirmation_code(code: &str) -> (r: bool)
    ensures
        r == has_code_form(code@),
{
    if code.as_bytes().len() != 6 {
        return false;
    }
    let n = code.unicode_len();
    let mut i: usize = 0;
    while i < n
        invariant
            0 <= i <= n,
            n == code@.len(),
            forall|j: int| 0 <= j < i ==> is_numeric_char(#[trigger] code@[j]),
        decreases n - i,
    {
        if !code.get_char(i).is_numeric() {
            return false;
        }
        i = i + 1;
    }
    true
}

/// Answers a request to confirm `email` with `code`; see `confirmation`.
pub fn confirm_email(user: &Option<HasuraUser>, email: &String, code: &String, now: Timestamp) -> (r:
    Result<(), ApiError>)
    ensures
        r == confirmation(*user, *email, *code, now),
{
    if !is_confirmation_code(code.as_str()) {
        return Err(ApiError::InvalidCode);
    }
    let user = match user {
        Some(user) => user,
        None => {
            return Err(ApiError::UserNotFound);
        },
    };
    if user.email_confirmed {
        return Err(ApiError::PermissionDenied);
    }
    match (&user.email_confirm_code, user.email_confirm_code_issued_at) {
        (Some(sent), Some(issued_at)) => {
            if !can_confirm_email(issued_at, now) {
                Err(ApiError::CodeExpired)
            } else if *sent == *code && user.email == *email {
                Ok(())
            } else {
                Err(ApiError::CodeNotMatch)
            }
        },
        _ => Err(ApiError::CodeNotRegistered),
    }
}

/// Answers a request to register `email`; see `registration`.
pub fn register_email(user: &Option<HasuraUser>, email: &str, now: Timestamp) -> (r: Result<
    (),
    ApiError,
>)
    ensures
        r == registration(*user, email@, now),
{
    if email.is_empty() {
        Err(ApiError::InvalidEmail)
    } else if can_upsert_email(user, now) {
        Ok(())
    } else {
        Err(ApiError::UpdateEmailProhibited)
    }
}

/// The roles that a user of `role` may act in; see `roles_up_to`.
pub fn allowed_roles(role: Role) -> (r: Vec<Role>)
    ensures
        r@ == roles_up_to(role),
{
    let mut roles: Vec<Role> = Vec::new();
    roles.push(Role::Anonymous);
    match role {
        Role::Anonymous => {},
        Role::Basic => {
            roles.push(Role::Basic);
        },
        Role::Premium => {
            roles.push(Role::Basic);
            roles.push(Role::Premium);
        },
    }
    assert(roles@ =~= roles_up_to(role));
    roles
}

/// The role and e-mail state for a user's web token; see `claims_of`.
pub fn claims(user: Option<HasuraUser>) -> (r: (Role, Email))
    ensures
        r == claims_of(user),
{
    match user {
        Some(user) => if user.email_confirmed {
            (user.role, Email::Confirmed(user.email))
        } else {
            (user.role, Email::Unconfirmed(user.email))
        },
        None => (Role::Anonymous, Email::Unregistered),
    }
}

fn code_digit(d: u32) -> (r: char)
    requires
        d < 10,
    ensures
        r == digit_char(d as int),
{
    match d {
        0 => '0',
        1 => '1',
        2 => '2',
        3 => '3',
        4 => '4',
        5 => '5',
        6 => '6',
        7 => '7',
        8 => '8',
        _ => '9',
    }
}

/// The confirmation code for the number `n`: its last six decimal digits.
pub fn code_of(n: u32) -> (r: String)
    ensures
        r@ == six_digits(n as int),
{
    let mut out = String::new();
    out.push(code_digit(n / 100_000 % 10));
    out.push(code_digit(n / 10_000 % 10));
    out.push(code_digit(n / 1_000 % 10));
    out.push(code_digit(n / 100 % 10));
    out.push(code_digit(n / 10 % 10));
    out.push(code_digit(n % 10));
    assert(out@ =~= six_digits(n as int));
    out
}

/// Draws a new confirmation code: the six digits of a number from 100000
/// to 999999.
pub fn new_confirmation_code() -> (r: String)
    ensures
        exists|n: int| 100_000 <= n <= 999_999 && r@ == #[trigger] six_digits(n),
{
    let n = draw_in_range(100_000, 999_999);
    let r = code_of(n);
    assert(r@ == six_digits(n as int));
    r
}

} // verus!
