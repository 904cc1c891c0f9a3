//! From the row of the profile query to the user as the engine knows the
//! user.
use crate::error::FiringError;
use crate::gq::{role_of, RoleEnum, Timestamptz};
use crate::list_active_tasks::instant_of;
use crate::model::{HasuraUser, Role};
use crate::timestamp::{iso8601_plain_reading, Timestamp};
use vstd::prelude::*;

verus! {

/// A user row.
#[allow(non_camel_case_types)]
#[derive(Debug)]
pub struct user {
    pub email: String,
    pub id: String,
    pub role: RoleEnum,
    pub active: bool,
    pub last_seen: Timestamptz,
    pub email_confirmed: bool,
    pub email_confirmed_at: Option<Timestamptz>,
    pub email_confirm_code: Option<String>,
    pub email_confirm_code_issued_at: Option<Timestamptz>,
}

/// The answer to the profile query.
#[derive(Debug)]
pub struct GetSelfProfile {
    pub user_by_pk: Option<user>,
}

/// The instant that an optional stored text stands for: `Some(None)` for
/// no text, `None` for text that cannot be read.
pub open spec fn optional_instant_of(stored: Option<Timestamptz>) -> Option<Option<Timestamp>> {
    match stored {
        Some(s) => match instant_of(s) {
            Some(t) => Some(Some(t)),
            None => None,
        },
        None => Some(None),
    }
}

/// Whether a user row can be read: the instant the user was last seen at
/// is a date and a clock time, and the other instants, where the row has
/// them, are RFC 3339 text.
pub open spec fn row_is_readable(row: user) -> bool {
    &&& iso8601_plain_reading(row.last_seen.0@).is_some()
    &&& optional_instant_of(row.email_confirmed_at).is_some()
    &&& optional_instant_of(row.email_confirm_code_issued_at).is_some()
}

/// Whether `u` is the user that `row` stands for.
pub open spec fn row_matches(u: HasuraUser, row: user) -> bool {
    &&& u.id == row.id
    &&& u.email == row.email
    &&& u.role == role_of(row.role)
    &&& u.active == row.active
    &&& Some(u.last_seen.unix_nanos as int) == iso8601_plain_reading(row.last_seen.0@)
    &&& u.last_seen.offset_seconds == 0
    &&& u.email_confirmed == row.email_confirmed
    &&& Some(u.email_confirmed_at) == optional_instant_of(row.email_confirmed_at)
    &&& u.email_confirm_code == row.email_confirm_code
    &&& Some(u.email_confirm_code_issued_at) == optional_instant_of(
        row.email_confirm_code_issued_at,
    )
}

/// Reads an optional stored instant.
fn read_optional(stored: &Option<Timestamptz>) -> (r: Option<Option<Timestamp>>)
    ensures
        r == optional_instant_of(*stored),
{
    match stored {
        Some(s) => match s.to_timestamp() {
            Some(t) => Some(Some(t)),
            None => None,
        },
        None => Some(None),
    }
}

/// The user that the profile query's answer stands for, if it holds one.
///
/// Fails with `UpstreamData`, and with nothing else, exactly when the
/// answer holds a row that cannot be read.
pub fn get_self(data: GetSelfProfile) -> (r: Result<Option<HasuraUser>, FiringError>)
    ensures
        match data.user_by_pk {
            Some(row) => {
                &&& r.is_ok() <==> row_is_readable(row)
                &&& r matches Ok(found) ==> found matches Some(u) && row_matches(u, row)
            },
            None => r matches Ok(found) && found.is_none(),
        },
        r matches Err(e) ==> e == FiringError::UpstreamData,
{
    let row = match data.user_by_pk {
        Some(row) => row,
        None => {
            return Ok(None);
        },
    };
    let last_seen = match Timestamp::parse_iso8601_plain(row.last_seen.0.as_str()) {
        Some(t) => t,
        None => {
            return Err(FiringError::UpstreamData);
        },
    };
    let email_confirmed_at = match read_optional(&row.email_confirmed_at) {
        Some(t) => t,
        None => {
            return Err(FiringError::UpstreamData);
        },
    };
    let email_confirm_code_issued_at = match read_optional(&row.email_confirm_code_issued_at) {
        Some(t) => t,
        None => {
            return Err(FiringError::UpstreamData);
        },
    };
    let role: Role = Role::from(row.role);
    Ok(
        Some(
            HasuraUser::new(
                row.id,
                row.email,
                role,
                row.active,
                last_seen,
                row.email_confirmed,
                email_confirmed_at,
                row.email_confirm_code,
                email_confirm_code_issued_at,
            ),
        ),
    )
}

} // verus!
