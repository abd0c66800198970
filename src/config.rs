use vstd::prelude::*;

verus! {

/// Where and as whom to connect: every field is text, taken as given.
pub struct DbConfig {
    pub host: String,
    pub port: String,
    pub dbname: String,
    pub user: String,
    pub password: String,
}

/// The value a setting takes: the one supplied, else its default.
pub open spec fn setting(v: Option<String>, default: Seq<char>) -> Seq<char> {
    match v {
        Some(s) => s@,
        None => default,
    }
}

/// The connection string for the five settings, in the driver's
/// `key=value` form, with no escaping.
pub open spec fn connection_text(
    host: Seq<char>,
    port: Seq<char>,
    dbname: Seq<char>,
    user: Seq<char>,
    password: Seq<char>,
) -> Seq<char> {
    "host="@ + host + " port="@ + port + " dbname="@ + dbname + " user="@ + user + " password="@
        + password
}

fn setting_or(v: Option<String>, default: &str) -> (r: String)
    ensures
        r@ == setting(v, default@),
{
    match v {
        Some(s) => s,
        None => String::from_str(default),
    }
}

impl DbConfig {
    /// Resolves the settings from the values of `DB_HOST`, `DB_PORT`,
    /// `DB_NAME`, `DB_USER` and `DB_PASSWORD` (`None` where unset).
    pub fn new(
        host: Option<String>,
        port: Option<String>,
        dbname: Option<String>,
        user: Option<String>,
        password: Option<String>,
    ) -> (r: DbConfig)
        ensures
            r.host@ == setting(host, "localhost"@),
            r.port@ == setting(port, "5432"@),
            r.dbname@ == setting(dbname, "music_db"@),
            r.user@ == setting(user, "postgres"@),
            r.password@ == setting(password, "postgres"@),
    {
        DbConfig {
            host: setting_or(host, "localhost"),
            port: setting_or(port, "5432"),
            dbname: setting_or(dbname, "music_db"),
            user: setting_or(user, "postgres"),
            password: setting_or(password, "postgres"),
        }
    }

    /// `host=.. port=.. dbname=.. user=.. password=..`, the values as they are.
    pub fn connection_string(&self) -> (r: String)
        ensures
            r@ == connection_text(self.host@, self.port@, self.dbname@, self.user@, self.password@),
    {
        let mut s = String::from_str("host=");
        s.append(self.host.as_str());
        s.append(" port=");
        s.append(self.port.as_str());
        s.append(" dbname=");
        s.append(self.dbname.as_str());
        s.append(" user=");
        s.append(self.user.as_str());
        s.append(" password=");
        s.append(self.password.as_str());
        s
    }

    /// A copy of these settings.
    pub fn duplicate(&self) -> (r: DbConfig)
        ensures
            r == *self,
    {
        DbConfig {
            host: self.host.clone(),
            port: self.port.clone(),
            dbname: self.dbname.clone(),
            user: self.user.clone(),
            password: self.password.clone(),
        }
    }
}

} // verus!
