//! Database connection settings: the base configuration overlaid with
//! environment overrides, the debug-build check of the required credentials,
//! the write-once database name, and the settings a MySQL pool is built from.

use vstd::prelude::*;
use vstd::string::*;

use crate::http_error::opt_string_view;
use crate::numbers::{parse_u16, parse_u16_spec, IntErrorKind};

verus! {

// ---------------------------------------------------------------------------
// Environment variables
// ---------------------------------------------------------------------------

/// The environment variables the configuration reads (all optional).
#[derive(Clone, Copy, Debug, PartialEq, Eq, Structural)]
pub enum EnvVar {
    Host,
    User,
    Password,
    Port,
    Hash,
    FilemakerUser,
    FilemakerPassword,
    DbName,
}

/// The name of the environment variable `v`.
pub open spec fn env_var_name(v: EnvVar) -> Seq<char> {
    match v {
        EnvVar::Host => "DB_HOST"@,
        EnvVar::User => "DB_USER"@,
        EnvVar::Password => "DB_PASSWORD"@,
        EnvVar::Port => "DB_PORT"@,
        EnvVar::Hash => "DB_HASH"@,
        EnvVar::FilemakerUser => "DB_FILEMAKER_USER"@,
        EnvVar::FilemakerPassword => "DB_FILEMAKER_PASSWORD"@,
        EnvVar::DbName => "DB_NAME"@,
    }
}

impl EnvVar {
    /// The name of this environment variable, such as `DB_HOST`.
    pub fn name(&self) -> (r: &'static str)
        ensures
            r@ == env_var_name(*self),
    {
        match self {
            EnvVar::Host => "DB_HOST",
            EnvVar::User => "DB_USER",
            EnvVar::Password => "DB_PASSWORD",
            EnvVar::Port => "DB_PORT",
            EnvVar::Hash => "DB_HASH",
            EnvVar::FilemakerUser => "DB_FILEMAKER_USER",
            EnvVar::FilemakerPassword => "DB_FILEMAKER_PASSWORD",
            EnvVar::DbName => "DB_NAME",
        }
    }
}

// ---------------------------------------------------------------------------
// Configuration records
// ---------------------------------------------------------------------------

/// Filemaker database authentication credentials.
#[derive(Clone, Debug)]
pub struct FilemakerCredentials {
    /// Filemaker username.
    pub username: String,
    /// Filemaker password.
    pub password: String,
}

/// Database connection configuration: credentials and connection details for
/// MySQL and for the Filemaker integration.
#[derive(Clone, Debug)]
pub struct DatabaseConnectionData {
    /// MySQL host address.
    pub host: String,
    /// MySQL username.
    pub user: String,
    /// MySQL password.
    pub password: String,
    /// Filemaker database credentials.
    pub filemaker: FilemakerCredentials,
    /// Authentication hash.
    pub hash: String,
    /// MySQL server port; `None` leaves the MySQL default (3306).
    pub port: Option<u16>,
}

/// The abstract value of a [`DatabaseConnectionData`].
pub struct ConnectionDataView {
    pub host: Seq<char>,
    pub user: Seq<char>,
    pub password: Seq<char>,
    pub filemaker_username: Seq<char>,
    pub filemaker_password: Seq<char>,
    pub hash: Seq<char>,
    pub port: Option<u16>,
}

impl View for DatabaseConnectionData {
    type V = ConnectionDataView;

    open spec fn view(&self) -> ConnectionDataView {
        ConnectionDataView {
            host: self.host@,
            user: self.user@,
            password: self.password@,
            filemaker_username: self.filemaker.username@,
            filemaker_password: self.filemaker.password@,
            hash: self.hash@,
            port: self.port,
        }
    }
}

impl Default for FilemakerCredentials {
    fn default() -> (r: Self)
        ensures
            r.username@ == Seq::<char>::empty(),
            r.password@ == Seq::<char>::empty(),
    {
        FilemakerCredentials { username: String::new(), password: String::new() }
    }
}

/// The configuration with every text field empty and no port.
pub open spec fn empty_connection_data() -> ConnectionDataView {
    ConnectionDataView {
        host: Seq::empty(),
        user: Seq::empty(),
        password: Seq::empty(),
        filemaker_username: Seq::empty(),
        filemaker_password: Seq::empty(),
        hash: Seq::empty(),
        port: None,
    }
}

impl Default for DatabaseConnectionData {
    fn default() -> (r: Self)
        ensures
            r@ == empty_connection_data(),
    {
        DatabaseConnectionData {
            host: String::new(),
            user: String::new(),
            password: String::new(),
            filemaker: FilemakerCredentials::default(),
            hash: String::new(),
            port: None,
        }
    }
}

/// The values found in the environment, one per variable that may override
/// a field of the configuration; `None` where the variable is not set.
#[derive(Clone, Debug)]
pub struct EnvOverrides {
    /// `DB_HOST`.
    pub host: Option<String>,
    /// `DB_USER`.
    pub user: Option<String>,
    /// `DB_PASSWORD`.
    pub password: Option<String>,
    /// `DB_PORT`, still unparsed.
    pub port: Option<String>,
    /// `DB_HASH`.
    pub hash: Option<String>,
    /// `DB_FILEMAKER_USER`.
    pub filemaker_user: Option<String>,
    /// `DB_FILEMAKER_PASSWORD`.
    pub filemaker_password: Option<String>,
}

/// The abstract value of an [`EnvOverrides`].
pub struct EnvOverridesView {
    pub host: Option<Seq<char>>,
    pub user: Option<Seq<char>>,
    pub password: Option<Seq<char>>,
    pub port: Option<Seq<char>>,
    pub hash: Option<Seq<char>>,
    pub filemaker_user: Option<Seq<char>>,
    pub filemaker_password: Option<Seq<char>>,
}

impl View for EnvOverrides {
    type V = EnvOverridesView;

    open spec fn view(&self) -> EnvOverridesView {
        EnvOverridesView {
            host: opt_string_view(self.host),
            user: opt_string_view(self.user),
            password: opt_string_view(self.password),
            port: opt_string_view(self.port),
            hash: opt_string_view(self.hash),
            filemaker_user: opt_string_view(self.filemaker_user),
            filemaker_password: opt_string_view(self.filemaker_password),
        }
    }
}

/// Overrides with no variable set.
pub open spec fn no_overrides() -> EnvOverridesView {
    EnvOverridesView {
        host: None,
        user: None,
        password: None,
        port: None,
        hash: None,
        filemaker_user: None,
        filemaker_password: None,
    }
}


// ---------------------------------------------------------------------------
// Errors
// ---------------------------------------------------------------------------

/// Why the configuration or the database name could not be had.
#[derive(Clone, Debug)]
pub enum ConfigError {
    /// `DB_PORT` is set but its value is not a `u16`.
    InvalidPort { value: String, kind: IntErrorKind },
    /// In a debug build, these required credentials are empty after the
    /// overrides, in the order host, user, password.
    MissingVariables(Vec<EnvVar>),
    /// The database name was set before.
    DatabaseNameAlreadySet,
    /// The database name was read before it was set.
    DatabaseNameNotSet,
    /// `DB_NAME` is not set in the environment.
    DatabaseNameVarNotSet,
}

/// The abstract value of a [`ConfigError`].
pub enum ConfigErrorView {
    InvalidPort(Seq<char>, IntErrorKind),
    MissingVariables(Seq<EnvVar>),
    DatabaseNameAlreadySet,
    DatabaseNameNotSet,
    DatabaseNameVarNotSet,
}

impl View for ConfigError {
    type V = ConfigErrorView;

    open spec fn view(&self) -> ConfigErrorView {
        match self {
            ConfigError::InvalidPort { value, kind } => ConfigErrorView::InvalidPort(value@, *kind),
            ConfigError::MissingVariables(vars) => ConfigErrorView::MissingVariables(vars@),
            ConfigError::DatabaseNameAlreadySet => ConfigErrorView::DatabaseNameAlreadySet,
            ConfigError::DatabaseNameNotSet => ConfigErrorView::DatabaseNameNotSet,
            ConfigError::DatabaseNameVarNotSet => ConfigErrorView::DatabaseNameVarNotSet,
        }
    }
}

/// What `format!("{:?}", s)` writes for the string `s`: `s` between double
/// quotes, with the characters that `str`'s `Debug` escapes escaped.
pub uninterp spec fn debug_text(s: Seq<char>) -> Seq<char>;

/// Calls std's `Debug` for `str` through `format!("{:?}", s)`; the contract
/// claims only that the text is a function of `s` alone, named `debug_text`.
#[verifier::external_body]
fn debug_quoted(s: &str) -> (r: String)
    ensures
        r@ == debug_text(s@),
{
    format!("{:?}", s)
}

/// The text `std::num::ParseIntError` displays for each kind that parsing a
/// `u16` can give.
pub open spec fn int_error_text(k: IntErrorKind) -> Seq<char> {
    match k {
        IntErrorKind::Empty => "cannot parse integer from empty string"@,
        IntErrorKind::InvalidDigit => "invalid digit found in string"@,
        IntErrorKind::PosOverflow => "number too large to fit in target type"@,
    }
}

fn int_error_message(k: IntErrorKind) -> (r: &'static str)
    ensures
        r@ == int_error_text(k),
{
    match k {
        IntErrorKind::Empty => "cannot parse integer from empty string",
        IntErrorKind::InvalidDigit => "invalid digit found in string",
        IntErrorKind::PosOverflow => "number too large to fit in target type",
    }
}

/// The names of `vars`, separated by `, `.
pub open spec fn joined_names(vars: Seq<EnvVar>) -> Seq<char>
    decreases vars.len(),
{
    if vars.len() == 0 {
        Seq::empty()
    } else if vars.len() == 1 {
        env_var_name(vars[0])
    } else {
        joined_names(vars.drop_last()) + ", "@ + env_var_name(vars.last())
    }
}

fn join_env_names(vars: &Vec<EnvVar>) -> (r: String)
    ensures
        r@ == joined_names(vars@),
{
    let mut out = String::new();
    let mut i: usize = 0;
    while i < vars.len()
        invariant
            i <= vars.len(),
            out@ == joined_names(vars@.take(i as int)),
        decreases vars.len() - i,
    {
        assert(vars@.take(i + 1).drop_last() =~= vars@.take(i as int));
        assert(vars@.take(i + 1).last() == vars@[i as int]);
        if i > 0 {
            out.append(", ");
        } else {
            assert(vars@.take(0) =~= Seq::<EnvVar>::empty());
        }
        let name = vars[i].name();
        out.append(name);
        i = i + 1;
    }
    assert(vars@.take(vars.len() as int) =~= vars@);
    out
}

/// The message of an error, as the error's text reads.
pub open spec fn config_error_text(e: ConfigErrorView) -> Seq<char> {
    match e {
        ConfigErrorView::InvalidPort(value, kind) =>
            "DB_PORT must be a valid u16 (got "@ + debug_text(value) + "): "@ + int_error_text(kind),
        ConfigErrorView::MissingVariables(vars) =>
            "Missing required database env var(s) in debug build: "@ + joined_names(vars)
                + ". Set them before running (e.g. DB_HOST, DB_USER, DB_PASSWORD)."@,
        ConfigErrorView::DatabaseNameAlreadySet => "Database name has already been set"@,
        ConfigErrorView::DatabaseNameNotSet =>
            "Database name has not been set; call set_database_name first"@,
        ConfigErrorView::DatabaseNameVarNotSet => "DB_NAME is not set"@,
    }
}

impl ConfigError {
    /// The human-readable message of this error.
    pub fn message(&self) -> (r: String)
        ensures
            r@ == config_error_text(self@),
    {
        match self {
            ConfigError::InvalidPort { value, kind } => {
                let mut out = String::from_str("DB_PORT must be a valid u16 (got ");
                let quoted = debug_quoted(value.as_str());
                out.append(quoted.as_str());
                out.append("): ");
                out.append(int_error_message(*kind));
                out
            },
            ConfigError::MissingVariables(vars) => {
                let mut out = String::from_str("Missing required database env var(s) in debug build: ");
                let names = join_env_names(vars);
                out.append(names.as_str());
                out.append(". Set them before running (e.g. DB_HOST, DB_USER, DB_PASSWORD).");
                out
            },
            ConfigError::DatabaseNameAlreadySet => String::from_str("Database name has already been set"),
            ConfigError::DatabaseNameNotSet => String::from_str(
                "Database name has not been set; call set_database_name first",
            ),
            ConfigError::DatabaseNameVarNotSet => String::from_str("DB_NAME is not set"),
        }
    }
}


// ---------------------------------------------------------------------------
// Environment overrides and validation
// ---------------------------------------------------------------------------

/// `cur`, replaced by the override where there is one.
pub open spec fn override_with(cur: Seq<char>, o: Option<Seq<char>>) -> Seq<char> {
    match o {
        Some(v) => v,
        None => cur,
    }
}

/// The port after the `DB_PORT` override: the parsed value where it is set
/// and parses, the current port otherwise.
pub open spec fn port_after(cur: Option<u16>, o: Option<Seq<char>>) -> Option<u16> {
    match o {
        Some(v) => match parse_u16_spec(v) {
            Ok(n) => Some(n as u16),
            Err(_) => cur,
        },
        None => cur,
    }
}

/// The configuration `c` with every set variable of `o` in place of its field.
pub open spec fn overlaid(c: ConnectionDataView, o: EnvOverridesView) -> ConnectionDataView {
    ConnectionDataView {
        host: override_with(c.host, o.host),
        user: override_with(c.user, o.user),
        password: override_with(c.password, o.password),
        filemaker_username: override_with(c.filemaker_username, o.filemaker_user),
        filemaker_password: override_with(c.filemaker_password, o.filemaker_password),
        hash: override_with(c.hash, o.hash),
        port: port_after(c.port, o.port),
    }
}

/// The error of the overrides `o`: `DB_PORT` set to a text that is no `u16`.
pub open spec fn port_error(o: EnvOverridesView) -> Option<ConfigErrorView> {
    match o.port {
        Some(v) => match parse_u16_spec(v) {
            Ok(_) => None,
            Err(k) => Some(ConfigErrorView::InvalidPort(v, k)),
        },
        None => None,
    }
}

/// Overlays the set environment variables onto `config`.
///
/// Only the fields whose variable is set change. `DB_PORT` is applied last:
/// where it does not parse as a `u16`, the error is returned and the port is
/// left as it was (the other fields are already overlaid).
pub fn apply_env_overrides(config: &mut DatabaseConnectionData, env: &EnvOverrides) -> (r: Result<(), ConfigError>)
    ensures
        final(config)@ == overlaid(old(config)@, env@),
        final(config).host@ == (match env.host { Some(v) => v@, None => old(config).host@ }),
        final(config).user@ == (match env.user { Some(v) => v@, None => old(config).user@ }),
        final(config).password@ == (match env.password { Some(v) => v@, None => old(config).password@ }),
        final(config).hash@ == (match env.hash { Some(v) => v@, None => old(config).hash@ }),
        final(config).filemaker.username@ == (match env.filemaker_user {
            Some(v) => v@,
            None => old(config).filemaker.username@,
        }),
        final(config).filemaker.password@ == (match env.filemaker_password {
            Some(v) => v@,
            None => old(config).filemaker.password@,
        }),
        match port_error(env@) {
            None => r is Ok,
            Some(e) => r matches Err(err) && err@ == e,
        },
{
    if let Some(v) = &env.host {
        config.host = v.clone();
    }
    if let Some(v) = &env.user {
        config.user = v.clone();
    }
    if let Some(v) = &env.password {
        config.password = v.clone();
    }
    if let Some(v) = &env.hash {
        config.hash = v.clone();
    }
    if let Some(v) = &env.filemaker_user {
        config.filemaker.username = v.clone();
    }
    if let Some(v) = &env.filemaker_password {
        config.filemaker.password = v.clone();
    }
    if let Some(v) = &env.port {
        match parse_u16(v.as_str()) {
            Ok(port) => {
                config.port = Some(port);
            },
            Err(kind) => {
                return Err(ConfigError::InvalidPort { value: v.clone(), kind });
            },
        }
    }
    Ok(())
}

/// The required credentials of `c` that are empty, in the order host, user,
/// password.
pub open spec fn missing_required(c: ConnectionDataView) -> Seq<EnvVar> {
    (if c.host.len() == 0 { seq![EnvVar::Host] } else { Seq::empty() })
        + (if c.user.len() == 0 { seq![EnvVar::User] } else { Seq::empty() })
        + (if c.password.len() == 0 { seq![EnvVar::Password] } else { Seq::empty() })
}

/// Checks that the MySQL host, user and password are all non-empty, as debug
/// builds require; otherwise names the variables that are missing.
pub fn validate_debug_config(config: &DatabaseConnectionData) -> (r: Result<(), ConfigError>)
    ensures
        r is Ok <==> missing_required(config@).len() == 0,
        r is Ok <==> (config.host@.len() > 0 && config.user@.len() > 0 && config.password@.len() > 0),
        r matches Err(e) ==> e@ == ConfigErrorView::MissingVariables(missing_required(config@)),
{
    proof {
        law_missing_required_exact(config@);
    }
    let mut missing: Vec<EnvVar> = Vec::new();
    if config.host.as_str().is_empty() {
        missing.push(EnvVar::Host);
    }
    if config.user.as_str().is_empty() {
        missing.push(EnvVar::User);
    }
    if config.password.as_str().is_empty() {
        missing.push(EnvVar::Password);
    }
    assert(missing@ =~= missing_required(config@));
    if missing.len() > 0 {
        return Err(ConfigError::MissingVariables(missing));
    }
    Ok(())
}

/// The configuration resolved from `base` and the overrides `env`: the
/// overlay, then, in a debug build, the check of the required credentials.
pub open spec fn resolved(base: ConnectionDataView, env: EnvOverridesView, debug: bool) -> Result<ConnectionDataView, ConfigErrorView> {
    match port_error(env) {
        Some(e) => Err(e),
        None => {
            let c = overlaid(base, env);
            if debug && missing_required(c).len() > 0 {
                Err(ConfigErrorView::MissingVariables(missing_required(c)))
            } else {
                Ok(c)
            }
        },
    }
}

impl DatabaseConnectionData {
    /// Resolves the configuration from its base (the empty default in debug
    /// builds, the fetched remote document in release builds) and the values
    /// of the environment variables: overlays the overrides, then, where
    /// `debug` holds, checks that host, user and password are set.
    pub fn resolve(base: DatabaseConnectionData, env: &EnvOverrides, debug: bool) -> (r: Result<DatabaseConnectionData, ConfigError>)
        ensures
            match r {
                Ok(c) => resolved(base@, env@, debug) == Ok::<ConnectionDataView, ConfigErrorView>(c@),
                Err(e) => resolved(base@, env@, debug) == Err::<ConnectionDataView, ConfigErrorView>(e@),
            },
            r matches Ok(c) ==> c@ == overlaid(base@, env@),
    {
        let mut config = base;
        match apply_env_overrides(&mut config, env) {
            Ok(()) => {},
            Err(e) => {
                return Err(e);
            },
        }
        if debug {
            match validate_debug_config(&config) {
                Ok(()) => {},
                Err(e) => {
                    return Err(e);
                },
            }
        }
        Ok(config)
    }
}

// ---------------------------------------------------------------------------
// The database name
// ---------------------------------------------------------------------------

/// A write-once holder of the database name: empty at first, set at most once.
#[derive(Debug)]
pub struct DatabaseNameSlot {
    name: Option<String>,
}

impl View for DatabaseNameSlot {
    type V = Option<Seq<char>>;

    closed spec fn view(&self) -> Option<Seq<char>> {
        opt_string_view(self.name)
    }
}

impl DatabaseNameSlot {
    /// An empty slot: no name is set yet.
    pub fn new() -> (r: Self)
        ensures
            r@ is None,
    {
        DatabaseNameSlot { name: None }
    }
}

/// The slot after setting the name `db`: unchanged where a name is already set.
pub open spec fn slot_after_set(slot: Option<Seq<char>>, db: Seq<char>) -> Option<Seq<char>> {
    match slot {
        Some(n) => Some(n),
        None => Some(db),
    }
}

/// Sets the database name. The name can be set once: a later call fails with
/// `DatabaseNameAlreadySet` and leaves the name as it was.
pub fn set_database_name(slot: &mut DatabaseNameSlot, db: &str) -> (r: Result<(), ConfigError>)
    ensures
        final(slot)@ == slot_after_set(old(slot)@, db@),
        r is Ok <==> old(slot)@ is None,
        r matches Err(e) ==> e@ == ConfigErrorView::DatabaseNameAlreadySet,
{
    if slot.name.is_some() {
        return Err(ConfigError::DatabaseNameAlreadySet);
    }
    slot.name = Some(String::from_str(db));
    Ok(())
}

/// Sets the database name from the value of `DB_NAME` (`None` where it is not
/// set): fails with `DatabaseNameVarNotSet` where it is not set, and otherwise
/// does what [`set_database_name`] does.
pub fn set_database_name_from_env(slot: &mut DatabaseNameSlot, db_name_var: Option<String>) -> (r: Result<(), ConfigError>)
    ensures
        match db_name_var {
            None => final(slot)@ == old(slot)@ && (r matches Err(e) && e@ == ConfigErrorView::DatabaseNameVarNotSet),
            Some(v) => {
                &&& final(slot)@ == slot_after_set(old(slot)@, v@)
                &&& (r is Ok <==> old(slot)@ is None)
                &&& (r matches Err(e) ==> e@ == ConfigErrorView::DatabaseNameAlreadySet)
            },
        },
{
    match db_name_var {
        None => Err(ConfigError::DatabaseNameVarNotSet),
        Some(v) => set_database_name(slot, v.as_str()),
    }
}

/// Returns the database name that was set, or `DatabaseNameNotSet` where none is.
pub fn get_database_name(slot: &DatabaseNameSlot) -> (r: Result<String, ConfigError>)
    ensures
        match slot@ {
            Some(n) => r matches Ok(s) && s@ == n,
            None => r matches Err(e) && e@ == ConfigErrorView::DatabaseNameNotSet,
        },
{
    match &slot.name {
        Some(n) => Ok(n.clone()),
        None => Err(ConfigError::DatabaseNameNotSet),
    }
}

// ---------------------------------------------------------------------------
// Pool settings
// ---------------------------------------------------------------------------

/// What a MySQL connection pool is opened with.
#[derive(Clone, Debug)]
pub struct PoolSettings {
    pub host: String,
    pub username: String,
    pub password: String,
    /// The database, which is the name set in the slot.
    pub database: String,
    /// The port; `None` leaves the MySQL default (3306).
    pub port: Option<u16>,
}

impl PoolSettings {
    /// The settings of the pool for `data` on the database named in `slot`;
    /// fails with `DatabaseNameNotSet` where no name is set.
    pub fn from_config(data: &DatabaseConnectionData, slot: &DatabaseNameSlot) -> (r: Result<PoolSettings, ConfigError>)
        ensures
            match slot@ {
                Some(n) => r matches Ok(p) && {
                    &&& p.host@ == data.host@
                    &&& p.username@ == data.user@
                    &&& p.password@ == data.password@
                    &&& p.database@ == n
                    &&& p.port == data.port
                },
                None => r matches Err(e) && e@ == ConfigErrorView::DatabaseNameNotSet,
            },
    {
        let database = match get_database_name(slot) {
            Ok(n) => n,
            Err(e) => {
                return Err(e);
            },
        };
        Ok(PoolSettings {
            host: data.host.clone(),
            username: data.user.clone(),
            password: data.password.clone(),
            database,
            port: data.port,
        })
    }
}


// ---------------------------------------------------------------------------
// Laws
// ---------------------------------------------------------------------------

/// After a first set of the name `db`, reading the name gives `db`.
pub proof fn law_get_after_set(before: Option<Seq<char>>, db: Seq<char>)
    requires
        before is None,
    ensures
        slot_after_set(before, db) == Some(db),
{
}

/// The name is written once: once a set has been made, any later set leaves
/// the slot as it is (and, by `set_database_name`, fails).
pub proof fn law_name_write_once(before: Option<Seq<char>>, first: Seq<char>, second: Seq<char>)
    ensures
        slot_after_set(before, first) is Some,
        slot_after_set(slot_after_set(before, first), second) == slot_after_set(before, first),
{
}

/// The slot after the sets of `names`, one after the other, from `slot`.
pub open spec fn slot_after_sets(slot: Option<Seq<char>>, names: Seq<Seq<char>>) -> Option<Seq<char>>
    decreases names.len(),
{
    if names.len() == 0 {
        slot
    } else {
        slot_after_sets(slot_after_set(slot, names[0]), names.drop_first())
    }
}

proof fn lemma_set_slot_stays(n: Seq<char>, names: Seq<Seq<char>>)
    ensures
        slot_after_sets(Some(n), names) == Some(n),
    decreases names.len(),
{
    if names.len() > 0 {
        lemma_set_slot_stays(n, names.drop_first());
    }
}

/// Of any sequence of sets of the name from an empty slot, only the first
/// succeeds (by `set_database_name`, a set succeeds exactly when the slot is
/// empty before it), and the name ends as the first value set.
pub proof fn law_only_first_set_succeeds(names: Seq<Seq<char>>)
    requires
        names.len() >= 1,
    ensures
        slot_after_sets(None, names) == Some(names[0]),
        forall|i: int| 0 <= i < names.len() ==> (#[trigger] slot_after_sets(None, names.take(i)) is None <==> i == 0),
{
    lemma_set_slot_stays(names[0], names.drop_first());
    assert forall|i: int| 0 <= i < names.len() implies (#[trigger] slot_after_sets(None, names.take(i)) is None <==> i == 0) by {
        if i == 0 {
            assert(names.take(0) =~= Seq::<Seq<char>>::empty());
        } else {
            let t = names.take(i);
            assert(t[0] == names[0]);
            lemma_set_slot_stays(names[0], t.drop_first());
        }
    }
}

/// Overlaying the same overrides twice is overlaying them once.
pub proof fn law_overlay_idempotent(c: ConnectionDataView, o: EnvOverridesView)
    ensures
        overlaid(overlaid(c, o), o) == overlaid(c, o),
{
}

/// With no variable set, the overlay leaves the configuration unchanged and
/// gives no error.
pub proof fn law_no_overrides_identity(c: ConnectionDataView)
    ensures
        overlaid(c, no_overrides()) == c,
        port_error(no_overrides()) is None,
{
}

/// A debug build resolves only to configurations whose host, user and
/// password are all non-empty.
pub proof fn law_debug_resolution_has_credentials(base: ConnectionDataView, env: EnvOverridesView)
    requires
        resolved(base, env, true) is Ok,
    ensures
        resolved(base, env, true)->Ok_0.host.len() > 0,
        resolved(base, env, true)->Ok_0.user.len() > 0,
        resolved(base, env, true)->Ok_0.password.len() > 0,
{
    let c = overlaid(base, env);
    if c.host.len() == 0 {
        assert(missing_required(c)[0] == EnvVar::Host);
    }
    if c.user.len() == 0 {
        assert(missing_required(c).len() > 0);
    }
    if c.password.len() == 0 {
        assert(missing_required(c).len() > 0);
    }
}

/// A release build fails only where `DB_PORT` is set to a text that is no
/// `u16`, and otherwise gives the overlay itself.
pub proof fn law_release_resolution(base: ConnectionDataView, env: EnvOverridesView)
    ensures
        resolved(base, env, false) is Err <==> port_error(env) is Some,
        port_error(env) is None ==> resolved(base, env, false) == Ok::<ConnectionDataView, ConfigErrorView>(overlaid(base, env)),
{
}

/// Each field of the configuration comes from its own variable: where the
/// variable is set its value replaces the field, and otherwise the field is
/// kept. `DB_PORT` replaces the port only with the value it parses to.
pub proof fn law_overlay_fields(c: ConnectionDataView, o: EnvOverridesView)
    ensures
        overlaid(c, o).host == (match o.host { Some(v) => v, None => c.host }),
        overlaid(c, o).user == (match o.user { Some(v) => v, None => c.user }),
        overlaid(c, o).password == (match o.password { Some(v) => v, None => c.password }),
        overlaid(c, o).hash == (match o.hash { Some(v) => v, None => c.hash }),
        overlaid(c, o).filemaker_username == (match o.filemaker_user {
            Some(v) => v,
            None => c.filemaker_username,
        }),
        overlaid(c, o).filemaker_password == (match o.filemaker_password {
            Some(v) => v,
            None => c.filemaker_password,
        }),
        o.port is None ==> overlaid(c, o).port == c.port,
        (o.port matches Some(v) && parse_u16_spec(v) is Ok) ==> overlaid(c, o).port == Some(
            parse_u16_spec(o.port->0)->Ok_0 as u16,
        ),
        (o.port matches Some(v) && parse_u16_spec(v) is Err) ==> overlaid(c, o).port == c.port,
        port_error(o) is Some <==> (o.port matches Some(v) && parse_u16_spec(v) is Err),
        port_error(o) matches Some(e) ==> e == ConfigErrorView::InvalidPort(
            o.port->0,
            parse_u16_spec(o.port->0)->Err_0,
        ),
{
}

/// The check of the required credentials fails exactly when one of host,
/// user and password is empty, and names exactly the empty ones, in the
/// order host, user, password.
pub proof fn law_missing_required_exact(c: ConnectionDataView)
    ensures
        missing_required(c).len() == 0 <==> (c.host.len() > 0 && c.user.len() > 0 && c.password.len() > 0),
        missing_required(c).contains(EnvVar::Host) <==> c.host.len() == 0,
        missing_required(c).contains(EnvVar::User) <==> c.user.len() == 0,
        missing_required(c).contains(EnvVar::Password) <==> c.password.len() == 0,
        forall|i: int| 0 <= i < missing_required(c).len() ==> {
            let v = #[trigger] missing_required(c)[i];
            v == EnvVar::Host || v == EnvVar::User || v == EnvVar::Password
        },
        forall|i: int, j: int| 0 <= i < j < missing_required(c).len() ==> {
            let a = #[trigger] missing_required(c)[i];
            let b = #[trigger] missing_required(c)[j];
            (a == EnvVar::Host && (b == EnvVar::User || b == EnvVar::Password)) || (a == EnvVar::User && b == EnvVar::Password)
        },
{
    let h = c.host.len() == 0;
    let u = c.user.len() == 0;
    let p = c.password.len() == 0;
    let expected: Seq<EnvVar> = if h && u && p {
        seq![EnvVar::Host, EnvVar::User, EnvVar::Password]
    } else if h && u {
        seq![EnvVar::Host, EnvVar::User]
    } else if h && p {
        seq![EnvVar::Host, EnvVar::Password]
    } else if u && p {
        seq![EnvVar::User, EnvVar::Password]
    } else if h {
        seq![EnvVar::Host]
    } else if u {
        seq![EnvVar::User]
    } else if p {
        seq![EnvVar::Password]
    } else {
        Seq::empty()
    };
    assert(missing_required(c) =~= expected);
    if h { assert(expected[0] == EnvVar::Host); }
    if u && !h { assert(expected[0] == EnvVar::User); }
    if u && h { assert(expected[1] == EnvVar::User); }
    if p {
        assert(expected[expected.len() - 1] == EnvVar::Password);
    }
}

/// In every build, a resolved configuration is the overlay of the overrides
/// on the base (the debug check only refuses, it changes nothing); resolving
/// succeeds exactly when `DB_PORT`, where set, parses, and, in a debug build,
/// host, user and password of the overlay are all non-empty.
pub proof fn law_resolution_is_the_overlay(base: ConnectionDataView, env: EnvOverridesView, debug: bool)
    ensures
        resolved(base, env, debug) matches Ok(c) ==> c == overlaid(base, env),
        resolved(base, env, debug) is Ok <==> {
            &&& (env.port matches Some(v) ==> parse_u16_spec(v) is Ok)
            &&& (debug ==> {
                &&& overlaid(base, env).host.len() > 0
                &&& overlaid(base, env).user.len() > 0
                &&& overlaid(base, env).password.len() > 0
            })
        },
{
    law_missing_required_exact(overlaid(base, env));
}

} // verus!
