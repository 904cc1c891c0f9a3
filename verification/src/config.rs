//! The service's settings.
use vstd::prelude::*;
use vstd::string::StringExecFns;

verus! {

/// The settings of the service, as they are read from the environment.
#[derive(Clone, Debug)]
pub struct Config {
    pub log_level: String,
    pub twitter_client_id: String,
    pub twitter_client_secret: String,
    pub backend_endpoint: String,
    pub server_port: u16,
    pub hasura_graphql_admin_secret: String,
    pub hasura_action_secret: String,
    pub hasura_graphql_endpoint: String,
    pub postgres_endpoint: String,
    pub minio_endpoint: String,
    pub smtp_username: String,
    pub smtp_password: String,
    /// The signing secret for web tokens, as a JSON object with a `key`.
    pub hasura_graphql_jwt_secret: String,
    pub api_key: String,
    pub api_secret_key: String,
    pub access_token: String,
    pub access_token_secret: String,
}

/// The log filter for a level: the level for the service itself and for
/// its HTTP layer.
pub open spec fn log_filter_text(level: Seq<char>) -> Seq<char> {
    "rustapi="@ + level + ",tower_http="@ + level
}

/// The address the service asks the social network to send users back to
/// after they have logged in.
pub open spec fn redirect_text(backend_endpoint: Seq<char>) -> Seq<char> {
    backend_endpoint + "/auth/authorized"@
}

impl Config {
    /// The log filter that is used when the environment names none.
    pub fn log_filter(&self) -> (r: String)
        ensures
            r@ == log_filter_text(self.log_level@),
    {
        let mut out = String::from_str("rustapi=");
        out.append(self.log_level.as_str());
        out.append(",tower_http=");
        out.append(self.log_level.as_str());
        out
    }

    /// The address users are sent back to after they have logged in.
    pub fn redirect_url(&self) -> (r: String)
        ensures
            r@ == redirect_text(self.backend_endpoint@),
    {
        let mut out = self.backend_endpoint.clone();
        out.append("/auth/authorized");
        out
    }
}

} // verus!
