//! Process-wide configuration: loaded once at startup, immutable afterwards,
//! shared read-only by every request handler and the purge scheduler.

use vstd::prelude::*;

verus! {

/// Process-wide configuration. Constructed once at startup, never mutated.
pub struct Config {
    /// Address the server listens on.
    pub ip: String,
    /// Port the server listens on.
    pub port: u16,
    /// Whether missing directories on the database path are created.
    pub createdirs: bool,
    /// Path of the credential database file.
    pub db: String,
    /// Base URL of the main site, used by the registration success page.
    pub mainsite: String,
    /// Application name.
    pub appname: String,
    /// Domain the service is served under.
    pub domain: String,
    /// Administrative contact address.
    pub admin_email: String,
    /// Lifetime of a session token, in milliseconds.
    pub token_expiration_ms: u64,
}

/// The compiled-in default configuration, field by field.
pub open spec fn is_default_config(c: Config) -> bool {
    &&& c.ip@ == "127.0.0.1"@
    &&& c.port == 8000u16
    &&& c.createdirs == false
    &&& c.db@ == "./mahbloag.db"@
    &&& c.mainsite@ == "https:://mahbloag.practica.site/"@
    &&& c.appname@ == "mahbloag"@
    &&& c.domain@ == "practica.site"@
    &&& c.admin_email@ == "admin@practica.site"@
    &&& c.token_expiration_ms == 7u64 * 24 * 60 * 60 * 1000
}

/// The compiled-in defaults, used whenever no configuration file can be read.
pub fn defcon() -> (c: Config)
    ensures
        is_default_config(c),
{
    Config {
        ip: "127.0.0.1".to_owned(),
        port: 8000,
        createdirs: false,
        db: "./mahbloag.db".to_owned(),
        mainsite: "https:://mahbloag.practica.site/".to_owned(),
        appname: "mahbloag".to_owned(),
        domain: "practica.site".to_owned(),
        admin_email: "admin@practica.site".to_owned(),
        token_expiration_ms: 7 * 24 * 60 * 60 * 1000,
    }
}

/// Startup never fails for want of configuration: a loaded configuration is
/// used as it is, and its absence falls back to the compiled-in defaults.
pub fn config_or_default(loaded: Option<Config>) -> (c: Config)
    ensures
        loaded is Some ==> c == loaded->Some_0,
        loaded is None ==> is_default_config(c),
{
    match loaded {
        Some(c) => c,
        None => defcon(),
    }
}

} // verus!
