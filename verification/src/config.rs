use vstd::prelude::*;
use vstd::string::StringExecFns;

verus! {

/// Application-wide configuration.
pub struct AppConfig {
    pub mongodb_uri: String,
    pub database_name: String,
    pub jwt_secret: String,
}

/// The value a setting takes: the one given, else its default.
pub open spec fn setting_or(given: Option<String>, default: Seq<char>) -> Seq<char> {
    match given {
        Some(v) => v@,
        None => default,
    }
}

impl AppConfig {
    /// Builds the configuration from the values of the variables
    /// `DATABASE_URL`, `DATABASE_NAME` and `JWT_SECRET` (each `None` where the
    /// variable is unset); an unset variable takes its default.
    pub fn from_env_values(
        database_url: Option<String>,
        database_name: Option<String>,
        jwt_secret: Option<String>,
    ) -> (cfg: AppConfig)
        ensures
            cfg.mongodb_uri@ == setting_or(database_url, "mongodb://localhost:27017"@),
            cfg.database_name@ == setting_or(database_name, "polling_application"@),
            cfg.jwt_secret@ == setting_or(jwt_secret, "whatmightbeyoursecret"@),
    {
        let mongodb_uri = match database_url {
            Some(v) => v,
            None => String::from_str("mongodb://localhost:27017"),
        };
        let database_name = match database_name {
            Some(v) => v,
            None => String::from_str("polling_application"),
        };
        let jwt_secret = match jwt_secret {
            Some(v) => v,
            None => String::from_str("whatmightbeyoursecret"),
        };
        AppConfig { mongodb_uri, database_name, jwt_secret }
    }
}

/// A setting that is given is taken as it is; one that is not takes the
/// default.
pub proof fn setting_given_or_default(given: Option<String>, default: Seq<char>)
    ensures
        given matches Some(v) ==> setting_or(given, default) == v@,
        given is None ==> setting_or(given, default) == default,
{
}

} // verus!
