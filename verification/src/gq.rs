//! The values that cross the boundary to the data store: its scalar types,
//! and what they stand for inside the engine.
use crate::calendar::TimeOfDay;
use crate::model::Role;
use crate::timestamp::{
    clock_reading,
    parse_clock,
    rfc3339_reading,
    rfc3339_text,
    timestamp_of,
    Timestamp,
};
use vstd::prelude::*;

verus! {

/// An instant as the data store writes it: RFC 3339 text.
#[derive(Clone, Debug)]
pub struct Timestamptz(pub String);

/// A clock time as the data store writes it: `hh:mm:ss`.
#[derive(Clone, Debug)]
pub struct Time(pub String);

/// A user's role as the data store names it.
#[derive(Clone, Copy, Debug, PartialEq, Eq, Structural)]
pub enum RoleEnum {
    Anonymous,
    Basic,
    Premium,
}

/// The seconds since midnight that a clock reading stands for, if its
/// fields are those of a clock time.
pub open spec fn seconds_of_reading(reading: Option<(int, int, int)>) -> Option<int> {
    match reading {
        Some((h, m, s)) => if 0 <= h < 24 && 0 <= m < 60 && 0 <= s < 60 {
            Some(h * 3600 + m * 60 + s)
        } else {
            None
        },
        None => None,
    }
}

/// The seconds since midnight that a stored clock time stands for.
pub open spec fn time_of_day_reading(text: Seq<char>) -> Option<int> {
    seconds_of_reading(clock_reading(text))
}

impl Timestamptz {
    /// The instant that the stored text stands for; `None` if it is not
    /// RFC 3339 text.
    pub fn to_timestamp(&self) -> (r: Option<Timestamp>)
        ensures
            r == timestamp_of(rfc3339_reading(self.0@)),
    {
        Timestamp::parse_rfc3339(self.0.as_str())
    }

    /// The stored text of an instant; `None` if the instant has no RFC 3339
    /// form.
    pub fn from_timestamp(t: Timestamp) -> (r: Option<Timestamptz>)
        ensures
            r.is_some() == rfc3339_text(t.unix_nanos as int, t.offset_seconds as int).is_some(),
            r matches Some(s) ==> rfc3339_text(t.unix_nanos as int, t.offset_seconds as int)
                == Some(s.0@),
    {
        match t.to_rfc3339() {
            Some(text) => Some(Timestamptz(text)),
            None => None,
        }
    }
}

impl Time {
    /// The clock time that the stored text stands for; `None` if it is not
    /// of the form `hh:mm:ss`.
    pub fn to_time_of_day(&self) -> (r: Option<TimeOfDay>)
        ensures
            r.is_some() == time_of_day_reading(self.0@).is_some(),
            r matches Some(t) ==> t.wf() && Some(t.seconds()) == time_of_day_reading(self.0@),
    {
        match parse_clock(self.0.as_str()) {
            Some((h, m, s)) => TimeOfDay::from_hms(h, m, s),
            None => None,
        }
    }
}

/// The character of a decimal digit.
pub open spec fn digit_char(d: int) -> char {
    if d == 0 {
        '0'
    } else if d == 1 {
        '1'
    } else if d == 2 {
        '2'
    } else if d == 3 {
        '3'
    } else if d == 4 {
        '4'
    } else if d == 5 {
        '5'
    } else if d == 6 {
        '6'
    } else if d == 7 {
        '7'
    } else if d == 8 {
        '8'
    } else {
        '9'
    }
}

/// A number below one hundred in two decimal digits.
pub open spec fn two_digits(n: int) -> Seq<char> {
    seq![digit_char(n / 10), digit_char(n % 10)]
}

/// A clock time written as `hh:mm:ss`.
pub open spec fn clock_text(t: TimeOfDay) -> Seq<char> {
    two_digits(t.spec_hour()) + seq![':'] + two_digits(t.spec_minute()) + seq![':'] + two_digits(
        t.spec_second(),
    )
}

fn digit(d: u8) -> (r: char)
    requires
        d < 10,
    ensures
        r == digit_char(d as int),
{
    match d {
        0 => '0',
        1 => '1',
        2 => '2',
        3 => '3',
        4 => '4',
        5 => '5',
        6 => '6',
        7 => '7',
        8 => '8',
        _ => '9',
    }
}

fn push_two_digits(out: &mut String, n: u8)
    requires
        n < 100,
    ensures
        final(out)@ == old(out)@ + two_digits(n as int),
{
    out.push(digit(n / 10));
    out.push(digit(n % 10));
    assert(out@ =~= old(out)@ + two_digits(n as int));
}

/// Writes a clock time as `hh:mm:ss`, each field in two digits.
pub fn format_tweet_at(time: TimeOfDay) -> (r: String)
    ensures
        r@ == clock_text(time),
{
    let mut out = String::new();
    push_two_digits(&mut out, time.hour());
    out.push(':');
    push_two_digits(&mut out, time.minute());
    out.push(':');
    push_two_digits(&mut out, time.second());
    assert(out@ =~= clock_text(time));
    out
}

/// The data store's name for a role.
pub open spec fn role_enum_of(role: Role) -> RoleEnum {
    match role {
        Role::Anonymous => RoleEnum::Anonymous,
        Role::Basic => RoleEnum::Basic,
        Role::Premium => RoleEnum::Premium,
    }
}

impl From<Role> for RoleEnum {
    fn from(value: Role) -> (r: RoleEnum) {
        match value {
            Role::Anonymous => RoleEnum::Anonymous,
            Role::Basic => RoleEnum::Basic,
            Role::Premium => RoleEnum::Premium,
        }
    }
}

impl vstd::std_specs::convert::FromSpecImpl<Role> for RoleEnum {
    open spec fn obeys_from_spec() -> bool {
        true
    }

    open spec fn from_spec(value: Role) -> RoleEnum {
        role_enum_of(value)
    }
}

/// The role that the data store's name stands for.
pub open spec fn role_of(role: RoleEnum) -> Role {
    match role {
        RoleEnum::Anonymous => Role::Anonymous,
        RoleEnum::Basic => Role::Basic,
        RoleEnum::Premium => Role::Premium,
    }
}

impl From<RoleEnum> for Role {
    fn from(value: RoleEnum) -> (r: Role) {
        match value {
            RoleEnum::Anonymous => Role::Anonymous,
            RoleEnum::Basic => Role::Basic,
            RoleEnum::Premium => Role::Premium,
        }
    }
}

impl vstd::std_specs::convert::FromSpecImpl<RoleEnum> for Role {
    open spec fn obeys_from_spec() -> bool {
        true
    }

    open spec fn from_spec(value: RoleEnum) -> Role {
        role_of(value)
    }
}

/// The two sets of role names stand for each other.
pub proof fn lemma_role_names_round_trip(role: Role, name: RoleEnum)
    ensures
        role_of(role_enum_of(role)) == role,
        role_enum_of(role_of(name)) == name,
{
}

/// Why a call to the data store failed.
#[derive(Clone, Debug)]
pub enum HasuraError {
    /// The data store could not be reached.
    Network,
    /// The data store answered with an error; this is its message.
    Hasura { message: String },
    /// The data store answered with neither data nor an error.
    DataNotFound,
    /// The data store holds no session for the user.
    SessionNotFound,
    /// Anything else, in words.
    Whatever { message: String },
}

/// The failure that the errors of an answer without data stand for: the
/// first error, if there is one.
pub open spec fn error_of(errors: Option<Vec<String>>) -> HasuraError {
    match errors {
        Some(errors) => if errors@.len() > 0 {
            HasuraError::Hasura { message: errors@[0] }
        } else {
            HasuraError::DataNotFound
        },
        None => HasuraError::DataNotFound,
    }
}

/// What a failure of the data store means for a firing.
pub open spec fn firing_error_of(error: HasuraError) -> crate::error::FiringError {
    match error {
        HasuraError::Network => crate::error::FiringError::Network,
        HasuraError::SessionNotFound => crate::error::FiringError::SessionUnavailable,
        _ => crate::error::FiringError::UpstreamData,
    }
}

/// The failure that the errors of an answer without data stand for.
pub fn build_errors(errors: Option<Vec<String>>) -> (r: HasuraError)
    ensures
        r == error_of(errors),
{
    match errors {
        Some(errors) => {
            let mut errors = errors;
            if errors.len() > 0 {
                HasuraError::Hasura { message: errors.swap_remove(0) }
            } else {
                HasuraError::DataNotFound
            }
        },
        None => HasuraError::DataNotFound,
    }
}

impl HasuraError {
    /// What this failure means for a firing: an unreachable store is a
    /// network failure, a missing session leaves the user without one, and
    /// everything else is unusable data.
    pub fn to_firing_error(&self) -> (r: crate::error::FiringError)
        ensures
            r == firing_error_of(*self),
    {
        match self {
            HasuraError::Network => crate::error::FiringError::Network,
            HasuraError::SessionNotFound => crate::error::FiringError::SessionUnavailable,
            _ => crate::error::FiringError::UpstreamData,
        }
    }
}

} // verus!
