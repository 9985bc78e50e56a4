//! Layered configuration resolution: a base layer, an environment-specific
//! layer and process-environment overrides are merged field by field, in
//! increasing precedence, and then deserialized into typed [`Settings`].
//!
//! Reading the settings files and the process environment is I/O and is left
//! to the binary around this library; it hands the raw values in as
//! [`SettingsLayer`] values and plain `(name, value)` pairs.

use vstd::prelude::*;
use crate::domain::{valid_email, SubscriberEmail};
use crate::text::{
    dec_of, dec_val, parse_u64, parses_to_u64, push_str, str_eq, str_lower, to_ascii_lower,
    u64_to_dec,
};

verus! {

/// The fully resolved, typed settings of the service.
#[derive(Clone, Debug)]
pub struct Settings {
    pub database: DatabaseSettings,
    pub application: ApplicationSettings,
    pub email_client: EmailClientSettings,
}

#[derive(Clone, Debug)]
pub struct DatabaseSettings {
    pub username: String,
    pub password: String,
    pub port: u16,
    pub host: String,
    pub database_name: String,
}

#[derive(Clone, Debug)]
pub struct ApplicationSettings {
    pub port: u16,
    pub host: String,
}

#[derive(Clone, Debug)]
pub struct EmailClientSettings {
    pub base_url: String,
    pub sender_email: String,
    pub api_key: String,
    pub timeout_milliseconds: u64,
}

impl EmailClientSettings {
    /// Re-validates the configured sender address.
    pub fn sender(&self) -> (r: Result<SubscriberEmail, String>)
        ensures
            valid_email(self.sender_email@) ==> (r matches Ok(e) && e@ == self.sender_email@
                && e.wf()),
            !valid_email(self.sender_email@) ==> (r matches Err(m) && m@ == self.sender_email@
                + " is not a valid subscriber email."@),
    {
        SubscriberEmail::parse(self.sender_email.clone())
    }

    /// The per-call send budget, in milliseconds; the caller turns it into
    /// whatever duration value its transport wants.
    pub fn timeout(&self) -> (r: u64)
        ensures
            r == self.timeout_milliseconds,
    {
        self.timeout_milliseconds
    }
}

impl DatabaseSettings {
    /// The connection string for the configured database.
    pub fn connection_string(&self) -> (r: String)
        ensures
            r@ == "postgres://"@ + self.username@ + ":"@ + self.password@ + "@"@ + self.host@
                + ":"@ + dec_of(self.port as nat) + "/"@ + self.database_name@,
    {
        let mut r = self.connection_string_without_db();
        push_str(&mut r, "/");
        push_str(&mut r, self.database_name.as_str());
        r
    }

    /// The connection string for the server alone, without a database name.
    pub fn connection_string_without_db(&self) -> (r: String)
        ensures
            r@ == "postgres://"@ + self.username@ + ":"@ + self.password@ + "@"@ + self.host@
                + ":"@ + dec_of(self.port as nat),
    {
        let mut r = "postgres://".to_owned();
        push_str(&mut r, self.username.as_str());
        push_str(&mut r, ":");
        push_str(&mut r, self.password.as_str());
        push_str(&mut r, "@");
        push_str(&mut r, self.host.as_str());
        push_str(&mut r, ":");
        let port = u64_to_dec(self.port as u64);
        push_str(&mut r, port.as_str());
        r
    }
}

/// The deployment environment the service runs in.
#[derive(Clone, Copy, Debug, PartialEq, Eq, Structural)]
pub enum Environment {
    Local,
    Production,
}

impl Environment {
    /// The name of the environment, as used for its settings file.
    pub fn as_str(&self) -> (r: &'static str)
        ensures
            *self is Local ==> r@ == "local"@,
            *self is Production ==> r@ == "production"@,
    {
        match self {
            Environment::Local => "local",
            Environment::Production => "production",
        }
    }

    /// Recognizes the two environment names, ignoring ASCII case; any other
    /// value is rejected with a message naming it (in its lowered form).
    pub fn parse(s: &str) -> (r: Result<Environment, String>)
        ensures
            str_lower(s@) == "local"@ ==> r == Result::<Environment, String>::Ok(
                Environment::Local,
            ),
            str_lower(s@) == "production"@ ==> r == Result::<Environment, String>::Ok(
                Environment::Production,
            ),
            str_lower(s@) != "local"@ && str_lower(s@) != "production"@ ==> (r matches Err(m)
                && m@ == str_lower(s@)
                + " is not a supported environment. Use either 'local' or 'production'."@),
    {
        proof {
            reveal_strlit("local");
            reveal_strlit("production");
            assert("local"@.len() == 5);
            assert("production"@.len() == 10);
        }
        let lowered = to_ascii_lower(s);
        if str_eq(lowered.as_str(), "local") {
            Ok(Environment::Local)
        } else if str_eq(lowered.as_str(), "production") {
            Ok(Environment::Production)
        } else {
            let mut m = lowered;
            push_str(&mut m, " is not a supported environment. Use either 'local' or 'production'.");
            Err(m)
        }
    }
}

/// The single failure kind of configuration resolution.
#[derive(Clone, Debug)]
pub enum ConfigError {
    /// The environment selector named a value that is not a known
    /// environment; holds the message produced by [`Environment::parse`].
    UnrecognizedEnvironment(String),
    /// A required field was present in no layer; holds the field's dotted
    /// path.
    MissingField(String),
    /// A field's raw value does not have the field's declared type; holds
    /// the field's dotted path.
    InvalidFieldValue(String),
    /// A settings source could not be read or parsed at all; produced by the
    /// caller that performs the file I/O.
    UnreadableSource(String),
}

/// One settings resolution layer: for every settings field, the raw string
/// value the layer holds for it, if any.
#[derive(Clone, Debug)]
pub struct SettingsLayer {
    pub database_username: Option<String>,
    pub database_password: Option<String>,
    pub database_port: Option<String>,
    pub database_host: Option<String>,
    pub database_name: Option<String>,
    pub application_port: Option<String>,
    pub application_host: Option<String>,
    pub email_client_base_url: Option<String>,
    pub email_client_sender_email: Option<String>,
    pub email_client_api_key: Option<String>,
    pub email_client_timeout_milliseconds: Option<String>,
}

/// The mathematical content of a [`SettingsLayer`].
#[verifier::ext_equal]
pub struct LayerContent {
    pub database_username: Option<Seq<char>>,
    pub database_password: Option<Seq<char>>,
    pub database_port: Option<Seq<char>>,
    pub database_host: Option<Seq<char>>,
    pub database_name: Option<Seq<char>>,
    pub application_port: Option<Seq<char>>,
    pub application_host: Option<Seq<char>>,
    pub email_client_base_url: Option<Seq<char>>,
    pub email_client_sender_email: Option<Seq<char>>,
    pub email_client_api_key: Option<Seq<char>>,
    pub email_client_timeout_milliseconds: Option<Seq<char>>,
}

pub open spec fn raw_view(o: Option<String>) -> Option<Seq<char>> {
    match o {
        Some(s) => Some(s@),
        None => None,
    }
}

impl View for SettingsLayer {
    type V = LayerContent;

    open spec fn view(&self) -> LayerContent {
        LayerContent {
            database_username: raw_view(self.database_username),
            database_password: raw_view(self.database_password),
            database_port: raw_view(self.database_port),
            database_host: raw_view(self.database_host),
            database_name: raw_view(self.database_name),
            application_port: raw_view(self.application_port),
            application_host: raw_view(self.application_host),
            email_client_base_url: raw_view(self.email_client_base_url),
            email_client_sender_email: raw_view(self.email_client_sender_email),
            email_client_api_key: raw_view(self.email_client_api_key),
            email_client_timeout_milliseconds: raw_view(self.email_client_timeout_milliseconds),
        }
    }
}

impl SettingsLayer {
    /// The layer that holds no field at all.
    pub fn empty() -> (r: SettingsLayer)
        ensures
            r@ == empty_layer(),
    {
        SettingsLayer {
            database_username: None,
            database_password: None,
            database_port: None,
            database_host: None,
            database_name: None,
            application_port: None,
            application_host: None,
            email_client_base_url: None,
            email_client_sender_email: None,
            email_client_api_key: None,
            email_client_timeout_milliseconds: None,
        }
    }
}

pub open spec fn empty_layer() -> LayerContent {
    LayerContent {
        database_username: None,
        database_password: None,
        database_port: None,
        database_host: None,
        database_name: None,
        application_port: None,
        application_host: None,
        email_client_base_url: None,
        email_client_sender_email: None,
        email_client_api_key: None,
        email_client_timeout_milliseconds: None,
    }
}

/// One field under a two-layer merge: the higher-precedence layer wins
/// wherever it holds the field; elsewhere the lower layer's value is kept.
pub open spec fn layered(base: Option<Seq<char>>, over: Option<Seq<char>>) -> Option<Seq<char>> {
    if over is Some {
        over
    } else {
        base
    }
}

/// A whole layer under a two-layer merge, field by field.
pub open spec fn layered_content(base: LayerContent, over: LayerContent) -> LayerContent {
    LayerContent {
        database_username: layered(base.database_username, over.database_username),
        database_password: layered(base.database_password, over.database_password),
        database_port: layered(base.database_port, over.database_port),
        database_host: layered(base.database_host, over.database_host),
        database_name: layered(base.database_name, over.database_name),
        application_port: layered(base.application_port, over.application_port),
        application_host: layered(base.application_host, over.application_host),
        email_client_base_url: layered(base.email_client_base_url, over.email_client_base_url),
        email_client_sender_email: layered(
            base.email_client_sender_email,
            over.email_client_sender_email,
        ),
        email_client_api_key: layered(base.email_client_api_key, over.email_client_api_key),
        email_client_timeout_milliseconds: layered(
            base.email_client_timeout_milliseconds,
            over.email_client_timeout_milliseconds,
        ),
    }
}

fn pick(base: &Option<String>, over: &Option<String>) -> (r: Option<String>)
    ensures
        raw_view(r) == layered(raw_view(*base), raw_view(*over)),
{
    match over {
        Some(v) => Some(v.clone()),
        None => match base {
            Some(v) => Some(v.clone()),
            None => None,
        },
    }
}

/// Merges two layers; `over` takes precedence field by field.
pub fn merge(base: &SettingsLayer, over: &SettingsLayer) -> (r: SettingsLayer)
    ensures
        r@ == layered_content(base@, over@),
{
    let r = SettingsLayer {
        database_username: pick(&base.database_username, &over.database_username),
        database_password: pick(&base.database_password, &over.database_password),
        database_port: pick(&base.database_port, &over.database_port),
        database_host: pick(&base.database_host, &over.database_host),
        database_name: pick(&base.database_name, &over.database_name),
        application_port: pick(&base.application_port, &over.application_port),
        application_host: pick(&base.application_host, &over.application_host),
        email_client_base_url: pick(&base.email_client_base_url, &over.email_client_base_url),
        email_client_sender_email: pick(
            &base.email_client_sender_email,
            &over.email_client_sender_email,
        ),
        email_client_api_key: pick(&base.email_client_api_key, &over.email_client_api_key),
        email_client_timeout_milliseconds: pick(
            &base.email_client_timeout_milliseconds,
            &over.email_client_timeout_milliseconds,
        ),
    };
    proof {
        assert(r@ =~= layered_content(base@, over@));
    }
    r
}

/// The value of the last environment entry whose name, lowered, equals
/// `name`; `None` when no entry matches.
pub open spec fn env_lookup(vars: Seq<(String, String)>, name: Seq<char>) -> Option<Seq<char>>
    decreases vars.len(),
{
    if vars.len() == 0 {
        None
    } else if str_lower(vars.last().0@) == name {
        Some(vars.last().1@)
    } else {
        env_lookup(vars.drop_last(), name)
    }
}

fn lookup_env(vars: &Vec<(String, String)>, name: &str) -> (r: Option<String>)
    ensures
        raw_view(r) == env_lookup(vars@, name@),
{
    let mut i: usize = vars.len();
    proof {
        assert(vars@.subrange(0, vars@.len() as int) =~= vars@);
    }
    while i > 0
        invariant
            i <= vars@.len(),
            env_lookup(vars@, name@) == env_lookup(vars@.subrange(0, i as int), name@),
        decreases i,
    {
        i = i - 1;
        proof {
            assert(vars@.subrange(0, (i + 1) as int).drop_last() =~= vars@.subrange(0, i as int));
            assert(vars@.subrange(0, (i + 1) as int).last() == vars@[i as int]);
        }
        let lowered = to_ascii_lower(vars[i].0.as_str());
        if str_eq(lowered.as_str(), name) {
            return Some(vars[i].1.clone());
        }
    }
    proof {
        assert(vars@.subrange(0, 0) =~= Seq::<(String, String)>::empty());
    }
    None
}

/// The layer that the process environment contributes: one entry per
/// settings field, addressed as the fixed prefix `app`, one underscore, the
/// group name, two underscores, and the field name, compared ignoring ASCII
/// case.
pub open spec fn env_layer(vars: Seq<(String, String)>) -> LayerContent {
    LayerContent {
        database_username: env_lookup(vars, "app_database__username"@),
        database_password: env_lookup(vars, "app_database__password"@),
        database_port: env_lookup(vars, "app_database__port"@),
        database_host: env_lookup(vars, "app_database__host"@),
        database_name: env_lookup(vars, "app_database__database_name"@),
        application_port: env_lookup(vars, "app_application__port"@),
        application_host: env_lookup(vars, "app_application__host"@),
        email_client_base_url: env_lookup(vars, "app_email_client__base_url"@),
        email_client_sender_email: env_lookup(vars, "app_email_client__sender_email"@),
        email_client_api_key: env_lookup(vars, "app_email_client__api_key"@),
        email_client_timeout_milliseconds: env_lookup(
            vars,
            "app_email_client__timeout_milliseconds"@,
        ),
    }
}

/// Collects the settings overrides present in the process environment.
pub fn environment_overrides(vars: &Vec<(String, String)>) -> (r: SettingsLayer)
    ensures
        r@ == env_layer(vars@),
{
    let r = SettingsLayer {
        database_username: lookup_env(vars, "app_database__username"),
        database_password: lookup_env(vars, "app_database__password"),
        database_port: lookup_env(vars, "app_database__port"),
        database_host: lookup_env(vars, "app_database__host"),
        database_name: lookup_env(vars, "app_database__database_name"),
        application_port: lookup_env(vars, "app_application__port"),
        application_host: lookup_env(vars, "app_application__host"),
        email_client_base_url: lookup_env(vars, "app_email_client__base_url"),
        email_client_sender_email: lookup_env(vars, "app_email_client__sender_email"),
        email_client_api_key: lookup_env(vars, "app_email_client__api_key"),
        email_client_timeout_milliseconds: lookup_env(
            vars,
            "app_email_client__timeout_milliseconds",
        ),
    };
    proof {
        assert(r@ =~= env_layer(vars@));
    }
    r
}

/// A raw value is accepted for a `u16` field when it is a decimal digit
/// string whose value fits in 16 bits.
pub open spec fn parses_to_u16(s: Seq<char>) -> bool {
    parses_to_u64(s) && dec_val(s) <= 0xffff
}

/// A merged layer can be deserialized when every field is present and every
/// numeric field parses at its declared width.
pub open spec fn layer_well_typed(l: LayerContent) -> bool {
    &&& l.database_username is Some
    &&& l.database_password is Some
    &&& l.database_port matches Some(p) && parses_to_u16(p)
    &&& l.database_host is Some
    &&& l.database_name is Some
    &&& l.application_port matches Some(p) && parses_to_u16(p)
    &&& l.application_host is Some
    &&& l.email_client_base_url is Some
    &&& l.email_client_sender_email is Some
    &&& l.email_client_api_key is Some
    &&& l.email_client_timeout_milliseconds matches Some(t) && parses_to_u64(t)
}

/// Field-by-field correspondence between a merged layer and the settings
/// built from it.
pub open spec fn settings_match(l: LayerContent, s: Settings) -> bool {
    &&& s.database.username@ == l.database_username->0
    &&& s.database.password@ == l.database_password->0
    &&& s.database.port as nat == dec_val(l.database_port->0)
    &&& s.database.host@ == l.database_host->0
    &&& s.database.database_name@ == l.database_name->0
    &&& s.application.port as nat == dec_val(l.application_port->0)
    &&& s.application.host@ == l.application_host->0
    &&& s.email_client.base_url@ == l.email_client_base_url->0
    &&& s.email_client.sender_email@ == l.email_client_sender_email->0
    &&& s.email_client.api_key@ == l.email_client_api_key->0
    &&& s.email_client.timeout_milliseconds as nat == dec_val(
        l.email_client_timeout_milliseconds->0,
    )
}

/// The error deserialization reports for a layer that is not well typed:
/// the fields are examined in declaration order, and the first one that is
/// missing or ill-typed names the error.
pub open spec fn build_error(l: LayerContent, e: ConfigError) -> bool {
    if l.database_username is None {
        e matches ConfigError::MissingField(p) && p@ == "database.username"@
    } else if l.database_password is None {
        e matches ConfigError::MissingField(p) && p@ == "database.password"@
    } else if l.database_port is None {
        e matches ConfigError::MissingField(p) && p@ == "database.port"@
    } else if !parses_to_u16(l.database_port->0) {
        e matches ConfigError::InvalidFieldValue(p) && p@ == "database.port"@
    } else if l.database_host is None {
        e matches ConfigError::MissingField(p) && p@ == "database.host"@
    } else if l.database_name is None {
        e matches ConfigError::MissingField(p) && p@ == "database.database_name"@
    } else if l.application_port is None {
        e matches ConfigError::MissingField(p) && p@ == "application.port"@
    } else if !parses_to_u16(l.application_port->0) {
        e matches ConfigError::InvalidFieldValue(p) && p@ == "application.port"@
    } else if l.application_host is None {
        e matches ConfigError::MissingField(p) && p@ == "application.host"@
    } else if l.email_client_base_url is None {
        e matches ConfigError::MissingField(p) && p@ == "email_client.base_url"@
    } else if l.email_client_sender_email is None {
        e matches ConfigError::MissingField(p) && p@ == "email_client.sender_email"@
    } else if l.email_client_api_key is None {
        e matches ConfigError::MissingField(p) && p@ == "email_client.api_key"@
    } else if l.email_client_timeout_milliseconds is None {
        e matches ConfigError::MissingField(p) && p@ == "email_client.timeout_milliseconds"@
    } else if !parses_to_u64(l.email_client_timeout_milliseconds->0) {
        e matches ConfigError::InvalidFieldValue(p) && p@ == "email_client.timeout_milliseconds"@
    } else {
        false
    }
}

fn require_string(f: &Option<String>, path: &str) -> (r: Result<String, ConfigError>)
    ensures
        raw_view(*f) matches Some(v) ==> (r matches Ok(s) && s@ == v),
        raw_view(*f) is None ==> (r matches Err(e) && e matches ConfigError::MissingField(p)
            && p@ == path@),
{
    match f {
        Some(v) => Ok(v.clone()),
        None => Err(ConfigError::MissingField(path.to_owned())),
    }
}

fn require_u16(f: &Option<String>, path: &str) -> (r: Result<u16, ConfigError>)
    ensures
        (match raw_view(*f) {
            Some(v) => if parses_to_u16(v) {
                r matches Ok(n) && n as nat == dec_val(v)
            } else {
                r matches Err(e) && (e matches ConfigError::InvalidFieldValue(p) && p@ == path@)
            },
            None => r matches Err(e) && (e matches ConfigError::MissingField(p) && p@ == path@),
        }),
{
    match f {
        Some(v) => match parse_u64(v.as_str()) {
            Some(n) => if n <= 0xffff {
                Ok(n as u16)
            } else {
                Err(ConfigError::InvalidFieldValue(path.to_owned()))
            },
            None => Err(ConfigError::InvalidFieldValue(path.to_owned())),
        },
        None => Err(ConfigError::MissingField(path.to_owned())),
    }
}

fn require_u64(f: &Option<String>, path: &str) -> (r: Result<u64, ConfigError>)
    ensures
        (match raw_view(*f) {
            Some(v) => if parses_to_u64(v) {
                r matches Ok(n) && n as nat == dec_val(v)
            } else {
                r matches Err(e) && (e matches ConfigError::InvalidFieldValue(p) && p@ == path@)
            },
            None => r matches Err(e) && (e matches ConfigError::MissingField(p) && p@ == path@),
        }),
{
    match f {
        Some(v) => match parse_u64(v.as_str()) {
            Some(n) => Ok(n),
            None => Err(ConfigError::InvalidFieldValue(path.to_owned())),
        },
        None => Err(ConfigError::MissingField(path.to_owned())),
    }
}

/// Deserializes one merged layer into typed [`Settings`], enforcing each
/// field's declared type; a missing field or a type mismatch is an error,
/// never a silent default.
pub fn build_settings(layer: &SettingsLayer) -> (r: Result<Settings, ConfigError>)
    ensures
        r is Ok <==> layer_well_typed(layer@),
        r matches Ok(s) ==> settings_match(layer@, s),
        r matches Err(e) ==> build_error(layer@, e),
{
    let database_username = match require_string(&layer.database_username, "database.username") {
        Ok(v) => v,
        Err(e) => return Err(e),
    };
    let database_password = match require_string(&layer.database_password, "database.password") {
        Ok(v) => v,
        Err(e) => return Err(e),
    };
    let database_port = match require_u16(&layer.database_port, "database.port") {
        Ok(v) => v,
        Err(e) => return Err(e),
    };
    let database_host = match require_string(&layer.database_host, "database.host") {
        Ok(v) => v,
        Err(e) => return Err(e),
    };
    let database_name = match require_string(&layer.database_name, "database.database_name") {
        Ok(v) => v,
        Err(e) => return Err(e),
    };
    let application_port = match require_u16(&layer.application_port, "application.port") {
        Ok(v) => v,
        Err(e) => return Err(e),
    };
    let application_host = match require_string(&layer.application_host, "application.host") {
        Ok(v) => v,
        Err(e) => return Err(e),
    };
    let base_url = match require_string(&layer.email_client_base_url, "email_client.base_url") {
        Ok(v) => v,
        Err(e) => return Err(e),
    };
    let sender_email = match require_string(
        &layer.email_client_sender_email,
        "email_client.sender_email",
    ) {
        Ok(v) => v,
        Err(e) => return Err(e),
    };
    let api_key = match require_string(&layer.email_client_api_key, "email_client.api_key") {
        Ok(v) => v,
        Err(e) => return Err(e),
    };
    let timeout_milliseconds = match require_u64(
        &layer.email_client_timeout_milliseconds,
        "email_client.timeout_milliseconds",
    ) {
        Ok(v) => v,
        Err(e) => return Err(e),
    };
    Ok(
        Settings {
            database: DatabaseSettings {
                username: database_username,
                password: database_password,
                port: database_port,
                host: database_host,
                database_name,
            },
            application: ApplicationSettings { port: application_port, host: application_host },
            email_client: EmailClientSettings {
                base_url,
                sender_email,
                api_key,
                timeout_milliseconds,
            },
        },
    )
}

/// The layer that resolution deserializes: base file, then the
/// environment-specific file, then the process environment, in increasing
/// precedence.
pub open spec fn resolved_layer(
    base: LayerContent,
    env_file: LayerContent,
    vars: Seq<(String, String)>,
) -> LayerContent {
    layered_content(layered_content(base, env_file), env_layer(vars))
}

/// Merges the three resolution layers and deserializes the result.
pub fn resolve_settings(
    base: &SettingsLayer,
    env_file: &SettingsLayer,
    vars: &Vec<(String, String)>,
) -> (r: Result<Settings, ConfigError>)
    ensures
        r is Ok <==> layer_well_typed(resolved_layer(base@, env_file@, vars@)),
        r matches Ok(s) ==> settings_match(resolved_layer(base@, env_file@, vars@), s),
        r matches Err(e) ==> build_error(resolved_layer(base@, env_file@, vars@), e),
{
    let files = merge(base, env_file);
    let overrides = environment_overrides(vars);
    let merged = merge(&files, &overrides);
    build_settings(&merged)
}

/// Detects the active environment from the optional selector value: absent
/// means `Local`; a recognized name (ignoring ASCII case) names the
/// environment; anything else is a fatal configuration error.
pub fn resolve_environment(selector: Option<&str>) -> (r: Result<Environment, ConfigError>)
    ensures
        (match selector {
            None => r == Result::<Environment, ConfigError>::Ok(Environment::Local),
            Some(s) => if str_lower(s@) == "local"@ {
                r == Result::<Environment, ConfigError>::Ok(Environment::Local)
            } else if str_lower(s@) == "production"@ {
                r == Result::<Environment, ConfigError>::Ok(Environment::Production)
            } else {
                r matches Err(e) && (e matches ConfigError::UnrecognizedEnvironment(m) && m@
                    == str_lower(s@)
                    + " is not a supported environment. Use either 'local' or 'production'."@)
            },
        }),
{
    match selector {
        None => Ok(Environment::Local),
        Some(s) => match Environment::parse(s) {
            Ok(env) => Ok(env),
            Err(m) => Err(ConfigError::UnrecognizedEnvironment(m)),
        },
    }
}

/// With no environment-variable override for any field, resolution reads
/// each field from the environment-specific file when that file holds it,
/// and falls back to the base file otherwise.
pub proof fn lemma_file_layer_precedence(
    base: LayerContent,
    env_file: LayerContent,
    vars: Seq<(String, String)>,
)
    requires
        env_layer(vars) == empty_layer(),
    ensures
        resolved_layer(base, env_file, vars) == layered_content(base, env_file),
{
    assert(resolved_layer(base, env_file, vars) =~= layered_content(base, env_file));
}

/// A field overridden through the process environment resolves to the
/// override, whatever the two files hold.
pub proof fn lemma_environment_override_wins(
    base: LayerContent,
    env_file: LayerContent,
    vars: Seq<(String, String)>,
)
    ensures
        env_lookup(vars, "app_database__username"@) is Some ==> resolved_layer(
            base,
            env_file,
            vars,
        ).database_username == env_lookup(vars, "app_database__username"@),
        env_lookup(vars, "app_database__password"@) is Some ==> resolved_layer(
            base,
            env_file,
            vars,
        ).database_password == env_lookup(vars, "app_database__password"@),
        env_lookup(vars, "app_database__port"@) is Some ==> resolved_layer(
            base,
            env_file,
            vars,
        ).database_port == env_lookup(vars, "app_database__port"@),
        env_lookup(vars, "app_database__host"@) is Some ==> resolved_layer(
            base,
            env_file,
            vars,
        ).database_host == env_lookup(vars, "app_database__host"@),
        env_lookup(vars, "app_database__database_name"@) is Some ==> resolved_layer(
            base,
            env_file,
            vars,
        ).database_name == env_lookup(vars, "app_database__database_name"@),
        env_lookup(vars, "app_application__port"@) is Some ==> resolved_layer(
            base,
            env_file,
            vars,
        ).application_port == env_lookup(vars, "app_application__port"@),
        env_lookup(vars, "app_application__host"@) is Some ==> resolved_layer(
            base,
            env_file,
            vars,
        ).application_host == env_lookup(vars, "app_application__host"@),
        env_lookup(vars, "app_email_client__base_url"@) is Some ==> resolved_layer(
            base,
            env_file,
            vars,
        ).email_client_base_url == env_lookup(vars, "app_email_client__base_url"@),
        env_lookup(vars, "app_email_client__sender_email"@) is Some ==> resolved_layer(
            base,
            env_file,
            vars,
        ).email_client_sender_email == env_lookup(vars, "app_email_client__sender_email"@),
        env_lookup(vars, "app_email_client__api_key"@) is Some ==> resolved_layer(
            base,
            env_file,
            vars,
        ).email_client_api_key == env_lookup(vars, "app_email_client__api_key"@),
        env_lookup(vars, "app_email_client__timeout_milliseconds"@) is Some ==> resolved_layer(
            base,
            env_file,
            vars,
        ).email_client_timeout_milliseconds == env_lookup(
            vars,
            "app_email_client__timeout_milliseconds"@,
        ),
{
}

} // verus!
