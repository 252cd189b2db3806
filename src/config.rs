use vstd::prelude::*;

verus! {

/// Connection and signing settings of the service.
pub struct AppConfig {
    pub db_host: String,
    pub db_port: String,
    pub db_username: String,
    pub db_password: String,
    pub db_database: String,
    pub jwt_secret: String,
}

fn or_default(v: Option<String>, default: &str) -> (r: String)
    ensures
        v matches Some(s) ==> r == s,
        v is None ==> r@ == default@,
{
    match v {
        Some(s) => s,
        None => default.to_owned(),
    }
}

impl AppConfig {
    /// Builds the settings from optional values, each missing one taking its
    /// default: host `localhost`, port `5432`, user `postgres`, password `root`,
    /// database `payments`. There is no default signing secret: without one,
    /// `None`.
    pub fn from_settings(
        db_host: Option<String>,
        db_port: Option<String>,
        db_username: Option<String>,
        db_password: Option<String>,
        db_database: Option<String>,
        jwt_secret: Option<String>,
    ) -> (r: Option<AppConfig>)
        ensures
            r is Some <==> jwt_secret is Some,
            r matches Some(c) ==> {
                &&& Some(c.jwt_secret) == jwt_secret
                &&& c.db_host@ == (match db_host {
                    Some(s) => s@,
                    None => "localhost"@,
                })
                &&& c.db_port@ == (match db_port {
                    Some(s) => s@,
                    None => "5432"@,
                })
                &&& c.db_username@ == (match db_username {
                    Some(s) => s@,
                    None => "postgres"@,
                })
                &&& c.db_password@ == (match db_password {
                    Some(s) => s@,
                    None => "root"@,
                })
                &&& c.db_database@ == (match db_database {
                    Some(s) => s@,
                    None => "payments"@,
                })
            },
    {
        let jwt_secret = match jwt_secret {
            Some(s) => s,
            None => return None,
        };
        Some(
            AppConfig {
                db_host: or_default(db_host, "localhost"),
                db_port: or_default(db_port, "5432"),
                db_username: or_default(db_username, "postgres"),
                db_password: or_default(db_password, "root"),
                db_database: or_default(db_database, "payments"),
                jwt_secret,
            },
        )
    }

    /// The PostgreSQL connection URL:
    /// `postgres://<user>:<password>@<host>:<port>/<database>`.
    pub fn database_url(&self) -> (r: String)
        ensures
            r@ == "postgres://"@ + self.db_username@ + ":"@ + self.db_password@ + "@"@
                + self.db_host@ + ":"@ + self.db_port@ + "/"@ + self.db_database@,
    {
        let mut url = String::from_str("postgres://");
        url.append(self.db_username.as_str());
        url.append(":");
        url.append(self.db_password.as_str());
        url.append("@");
        url.append(self.db_host.as_str());
        url.append(":");
        url.append(self.db_port.as_str());
        url.append("/");
        url.append(self.db_database.as_str());
        url
    }
}

} // verus!
