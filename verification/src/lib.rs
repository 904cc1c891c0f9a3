//! Per-user scheduling and job-execution engine for recurring posts.
//!
//! Each registered user owns a set of recurring jobs: a rotation among
//! fixed messages, or a job that posts items of a feed. A job carries a
//! weekly calendar, a clock time and seven weekday flags; feed jobs that
//! post in order also fire on a four-hour interval.
//!
//! - `calendar`: the instants a schedule fires at, and the trigger that
//!   turns a calendar into one decision per tick.
//! - `recency`, `selector`, `template`: which message or feed item a firing
//!   posts, and the text of a feed post.
//! - `feed`: reading a fetched feed document.
//! - `session`: the check of the access token before every post.
//! - `firing`: one firing of one job, as a state machine of requests and
//!   replies.
//! - `host`: one user's jobs and their triggers.
//! - `supervisor`: the registry of running hosts and its two commands.
//! - `gq`, `list_active_tasks`, `get_self`: the data store's values and
//!   rows.
//! - `account`, `config`: e-mail confirmation, roles and settings.
//!
//! Network calls, storage and waiting are outside this library. Callers
//! hand in instants and replies as plain values and carry out the requests
//! that the library returns.
pub mod account;
pub mod calendar;
pub mod config;
pub mod error;
pub mod feed;
pub mod firing;
pub mod get_self;
pub mod gq;
pub mod host;
pub mod list_active_tasks;
pub mod model;
mod random;
pub mod recency;
pub mod selector;
pub mod sequence;
pub mod session;
pub mod supervisor;
pub mod template;
pub mod timestamp;
