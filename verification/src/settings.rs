use vstd::prelude::*;

verus! {

/// Connection settings for the gateway: where to reach its REST front end,
/// which database it fronts, and the credentials and token lifetime used at
/// login. Immutable after construction.
#[derive(Clone, Debug)]
pub struct AuthSettings {
    pub rest_https: bool,
    pub hostname: String,
    pub rest_port: u16,
    pub database: String,
    pub db_port: u16,
    pub ssl_db2: bool,
    pub password: String,
    pub username: String,
    pub expiry_time: String,
}

impl AuthSettings {
    pub fn new(
        rest_https: bool,
        hostname: String,
        rest_port: u16,
        database: String,
        db_port: u16,
        ssl_db2: bool,
        password: String,
        username: String,
        expiry_time: String,
    ) -> (r: AuthSettings)
        ensures
            r.rest_https == rest_https,
            r.hostname == hostname,
            r.rest_port == rest_port,
            r.database == database,
            r.db_port == db_port,
            r.ssl_db2 == ssl_db2,
            r.password == password,
            r.username == username,
            r.expiry_time == expiry_time,
    {
        AuthSettings {
            rest_https,
            hostname,
            rest_port,
            database,
            db_port,
            ssl_db2,
            password,
            username,
            expiry_time,
        }
    }
}

impl Default for AuthSettings {
    /// Plain HTTP toward an unnamed host with empty credentials; every
    /// string field is empty and every port is zero.
    fn default() -> (r: Self)
        ensures
            r.rest_https == false,
            r.hostname@ == Seq::<char>::empty(),
            r.rest_port == 0,
            r.database@ == Seq::<char>::empty(),
            r.db_port == 0,
            r.ssl_db2 == false,
            r.password@ == Seq::<char>::empty(),
            r.username@ == Seq::<char>::empty(),
            r.expiry_time@ == Seq::<char>::empty(),
    {
        AuthSettings {
            rest_https: false,
            hostname: String::new(),
            rest_port: 0,
            database: String::new(),
            db_port: 0,
            ssl_db2: false,
            password: String::new(),
            username: String::new(),
            expiry_time: String::new(),
        }
    }
}

} // verus!
