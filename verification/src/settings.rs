//! Configuration: built-in defaults, overridden by a configuration file, which
//! is overridden by environment variables.

use vstd::prelude::*;

use crate::text::{ascii_lower, parse_u16, same_text, to_ascii_lower, trim, trimmed, unsigned_value};

verus! {

/// Blink backend configuration.
#[derive(Clone, Debug)]
pub struct BackendConfig {
    /// Blink GraphQL API endpoint.
    pub api_url: String,
    /// Blink API key (required).
    pub api_key: String,
    /// Wallet to use for all operations. When empty, the account's default BTC
    /// wallet is resolved at startup.
    pub wallet_id: String,
}

/// Main configuration structure.
#[derive(Clone, Debug)]
pub struct Config {
    /// Blink backend configuration.
    pub backend: BackendConfig,
    /// gRPC server listen address.
    pub address: String,
    /// gRPC server listen port.
    pub port: u16,
    /// Whether the gRPC server uses TLS.
    pub tls_enable: bool,
    /// Path of the server certificate (PEM).
    pub tls_cert_path: String,
    /// Path of the server's private key (PEM).
    pub tls_key_path: String,
}

/// The settings that the `[backend]` table of a configuration file holds.
#[derive(Clone, Debug)]
pub struct FileBackend {
    pub api_url: Option<String>,
    pub api_key: Option<String>,
    pub wallet_id: Option<String>,
}

/// The settings that a configuration file holds; each may be absent.
#[derive(Clone, Debug)]
pub struct FileConfig {
    pub backend: FileBackend,
    pub address: Option<String>,
    pub port: Option<u16>,
    pub tls_enable: Option<bool>,
    pub tls_cert_path: Option<String>,
    pub tls_key_path: Option<String>,
}

/// The values of the environment variables that the configuration reads; each
/// may be unset.
#[derive(Clone, Debug)]
pub struct Environment {
    /// `BLINK_API_URL`
    pub blink_api_url: Option<String>,
    /// `BLINK_API_KEY`
    pub blink_api_key: Option<String>,
    /// `BLINK_WALLET_ID`
    pub blink_wallet_id: Option<String>,
    /// `SERVER_ADDRESS`
    pub server_address: Option<String>,
    /// `SERVER_PORT`
    pub server_port: Option<String>,
    /// `TLS_ENABLE`
    pub tls_enable: Option<String>,
    /// `TLS_CERT_PATH`
    pub tls_cert_path: Option<String>,
    /// `TLS_KEY_PATH`
    pub tls_key_path: Option<String>,
}

/// Why a configuration could not be loaded.
#[derive(Clone, Debug)]
pub enum ConfigError {
    /// `SERVER_PORT` holds this text, which is no port number.
    InvalidPort(String),
    /// The variable of this name holds this text, which is no truth value.
    InvalidFlag { name: String, value: String },
}

/// What a [`BackendConfig`] holds.
pub struct BackendConfigView {
    pub api_url: Seq<char>,
    pub api_key: Seq<char>,
    pub wallet_id: Seq<char>,
}

/// What a [`Config`] holds.
pub struct ConfigView {
    pub backend: BackendConfigView,
    pub address: Seq<char>,
    pub port: u16,
    pub tls_enable: bool,
    pub tls_cert_path: Seq<char>,
    pub tls_key_path: Seq<char>,
}

/// What a [`ConfigError`] says.
pub enum ConfigErrorView {
    InvalidPort(Seq<char>),
    InvalidFlag { name: Seq<char>, value: Seq<char> },
}

impl View for BackendConfig {
    type V = BackendConfigView;

    open spec fn view(&self) -> BackendConfigView {
        BackendConfigView {
            api_url: self.api_url@,
            api_key: self.api_key@,
            wallet_id: self.wallet_id@,
        }
    }
}

impl View for Config {
    type V = ConfigView;

    open spec fn view(&self) -> ConfigView {
        ConfigView {
            backend: self.backend@,
            address: self.address@,
            port: self.port,
            tls_enable: self.tls_enable,
            tls_cert_path: self.tls_cert_path@,
            tls_key_path: self.tls_key_path@,
        }
    }
}

impl View for ConfigError {
    type V = ConfigErrorView;

    open spec fn view(&self) -> ConfigErrorView {
        match self {
            ConfigError::InvalidPort(value) => ConfigErrorView::InvalidPort(value@),
            ConfigError::InvalidFlag { name, value } => ConfigErrorView::InvalidFlag {
                name: name@,
                value: value@,
            },
        }
    }
}

/// The text of a setting that may be absent.
pub open spec fn opt_text(o: Option<String>) -> Option<Seq<char>> {
    match o {
        Some(s) => Some(s@),
        None => None,
    }
}

/// The configuration when neither a file nor the environment sets anything.
pub open spec fn default_view() -> ConfigView {
    ConfigView {
        backend: BackendConfigView {
            api_url: "https://api.blink.sv/graphql"@,
            api_key: Seq::empty(),
            wallet_id: Seq::empty(),
        },
        address: "0.0.0.0"@,
        port: 50051,
        tls_enable: false,
        tls_cert_path: "certs/server.crt"@,
        tls_key_path: "certs/server.key"@,
    }
}

/// The value of a setting: the environment's, else the file's, else the default.
pub open spec fn chosen<T>(from_env: Option<T>, from_file: Option<T>, default: T) -> T {
    match from_env {
        Some(v) => v,
        None => match from_file {
            Some(v) => v,
            None => default,
        },
    }
}

/// The port that a text stands for.
pub open spec fn port_value(s: Seq<char>) -> Option<u16> {
    match unsigned_value(s) {
        Some(n) => if n <= 65535 {
            Some(n as u16)
        } else {
            None
        },
        None => None,
    }
}

/// The truth value that a text stands for, white space around it and letter
/// case aside.
pub open spec fn flag_value(s: Seq<char>) -> Option<bool> {
    let word = ascii_lower(trimmed(s));
    if word == "1"@ || word == "true"@ || word == "yes"@ || word == "on"@ {
        Some(true)
    } else if word == "0"@ || word == "false"@ || word == "no"@ || word == "off"@ {
        Some(false)
    } else {
        None
    }
}

impl Environment {
    /// Whether `SERVER_PORT` is set to something that is no port number.
    pub open spec fn bad_port(self) -> bool {
        self.server_port matches Some(s) && port_value(s@) is None
    }

    /// Whether `TLS_ENABLE` is set to something that is no truth value.
    pub open spec fn bad_flag(self) -> bool {
        self.tls_enable matches Some(s) && flag_value(s@) is None
    }

    /// The port that `SERVER_PORT` sets.
    pub open spec fn port(self) -> Option<u16> {
        match self.server_port {
            Some(s) => port_value(s@),
            None => None,
        }
    }

    /// The truth value that `TLS_ENABLE` sets.
    pub open spec fn flag(self) -> Option<bool> {
        match self.tls_enable {
            Some(s) => flag_value(s@),
            None => None,
        }
    }
}

/// The configuration that a file and the environment give over the defaults.
pub open spec fn merged(file: FileConfig, env: Environment) -> ConfigView {
    let base = default_view();
    ConfigView {
        backend: BackendConfigView {
            api_url: chosen(
                opt_text(env.blink_api_url),
                opt_text(file.backend.api_url),
                base.backend.api_url,
            ),
            api_key: chosen(
                opt_text(env.blink_api_key),
                opt_text(file.backend.api_key),
                base.backend.api_key,
            ),
            wallet_id: chosen(
                opt_text(env.blink_wallet_id),
                opt_text(file.backend.wallet_id),
                base.backend.wallet_id,
            ),
        },
        address: chosen(opt_text(env.server_address), opt_text(file.address), base.address),
        port: chosen(env.port(), file.port, base.port),
        tls_enable: chosen(env.flag(), file.tls_enable, base.tls_enable),
        tls_cert_path: chosen(
            opt_text(env.tls_cert_path),
            opt_text(file.tls_cert_path),
            base.tls_cert_path,
        ),
        tls_key_path: chosen(
            opt_text(env.tls_key_path),
            opt_text(file.tls_key_path),
            base.tls_key_path,
        ),
    }
}

/// What loading gives: an error for a port or a flag that cannot be read, the
/// port's if both cannot.
pub open spec fn loaded(file: FileConfig, env: Environment) -> Result<ConfigView, ConfigErrorView> {
    if env.bad_port() {
        Err(ConfigErrorView::InvalidPort(env.server_port->0@))
    } else if env.bad_flag() {
        Err(
            ConfigErrorView::InvalidFlag {
                name: "TLS_ENABLE"@,
                value: env.tls_enable->0@,
            },
        )
    } else {
        Ok(merged(file, env))
    }
}

/// What the result of loading says.
pub open spec fn load_result(r: Result<Config, ConfigError>) -> Result<
    ConfigView,
    ConfigErrorView,
> {
    match r {
        Ok(config) => Ok(config@),
        Err(e) => Err(e@),
    }
}

/// The built-in GraphQL endpoint.
pub fn default_api_url() -> (r: String)
    ensures
        r@ == "https://api.blink.sv/graphql"@,
{
    "https://api.blink.sv/graphql".to_string()
}

/// The built-in listen address.
pub fn default_address() -> (r: String)
    ensures
        r@ == "0.0.0.0"@,
{
    "0.0.0.0".to_string()
}

/// The built-in listen port.
pub fn default_port() -> (r: u16)
    ensures
        r == 50051,
{
    50051
}

/// The built-in certificate path.
pub fn default_tls_cert_path() -> (r: String)
    ensures
        r@ == "certs/server.crt"@,
{
    "certs/server.crt".to_string()
}

/// The built-in private key path.
pub fn default_tls_key_path() -> (r: String)
    ensures
        r@ == "certs/server.key"@,
{
    "certs/server.key".to_string()
}

impl Default for BackendConfig {
    fn default() -> (r: BackendConfig)
        ensures
            r@ == default_view().backend,
    {
        BackendConfig {
            api_url: default_api_url(),
            api_key: String::new(),
            wallet_id: String::new(),
        }
    }
}

impl Default for Config {
    fn default() -> (r: Config)
        ensures
            r@ == default_view(),
    {
        Config {
            backend: BackendConfig::default(),
            address: default_address(),
            port: default_port(),
            tls_enable: false,
            tls_cert_path: default_tls_cert_path(),
            tls_key_path: default_tls_key_path(),
        }
    }
}

/// The second text if it is there, else the first.
fn override_text(text: &mut String, by: Option<String>)
    ensures
        final(text)@ == (match by {
            Some(s) => s@,
            None => old(text)@,
        }),
{
    match by {
        Some(s) => {
            *text = s;
        },
        None => {},
    }
}

impl Config {
    /// Loads the configuration: defaults, overridden by the file's settings,
    /// overridden by environment variables.
    pub fn load(file: FileConfig, env: Environment) -> (r: Result<Config, ConfigError>)
        ensures
            load_result(r) == loaded(file, env),
    {
        let mut config = Config::default();
        override_text(&mut config.backend.api_url, file.backend.api_url);
        override_text(&mut config.backend.api_key, file.backend.api_key);
        override_text(&mut config.backend.wallet_id, file.backend.wallet_id);
        override_text(&mut config.address, file.address);
        if let Some(port) = file.port {
            config.port = port;
        }
        if let Some(tls_enable) = file.tls_enable {
            config.tls_enable = tls_enable;
        }
        override_text(&mut config.tls_cert_path, file.tls_cert_path);
        override_text(&mut config.tls_key_path, file.tls_key_path);

        override_text(&mut config.backend.api_url, env.blink_api_url);
        override_text(&mut config.backend.api_key, env.blink_api_key);
        override_text(&mut config.backend.wallet_id, env.blink_wallet_id);
        override_text(&mut config.address, env.server_address);
        if let Some(text) = env.server_port {
            match parse_u16(text.as_str()) {
                Some(port) => {
                    config.port = port;
                },
                None => {
                    return Err(ConfigError::InvalidPort(text));
                },
            }
        }
        if let Some(text) = env.tls_enable {
            match parse_bool_env("TLS_ENABLE", text.as_str()) {
                Ok(flag) => {
                    config.tls_enable = flag;
                },
                Err(e) => {
                    return Err(e);
                },
            }
        }
        override_text(&mut config.tls_cert_path, env.tls_cert_path);
        override_text(&mut config.tls_key_path, env.tls_key_path);
        Ok(config)
    }

    /// Loads the configuration as [`Config::load`] does.
    pub fn from_env(file: FileConfig, env: Environment) -> (r: Result<Config, ConfigError>)
        ensures
            load_result(r) == loaded(file, env),
    {
        Config::load(file, env)
    }
}

/// Reads a truth value from the variable of the given name.
pub fn parse_bool_env(name: &str, value: &str) -> (r: Result<bool, ConfigError>)
    ensures
        match r {
            Ok(flag) => flag_value(value@) == Some(flag),
            Err(e) => flag_value(value@) is None && e@ == (ConfigErrorView::InvalidFlag {
                name: name@,
                value: value@,
            }),
        },
{
    let trimmed_value = trim(value);
    let word = to_ascii_lower(trimmed_value.as_str());
    let w = word.as_str();
    if same_text(w, "1") || same_text(w, "true") || same_text(w, "yes") || same_text(w, "on") {
        Ok(true)
    } else if same_text(w, "0") || same_text(w, "false") || same_text(w, "no") || same_text(
        w,
        "off",
    ) {
        Ok(false)
    } else {
        Err(ConfigError::InvalidFlag { name: name.to_string(), value: value.to_string() })
    }
}

impl ConfigErrorView {
    /// The message for the operator.
    pub open spec fn text(self) -> Seq<char> {
        match self {
            ConfigErrorView::InvalidPort(value) => "invalid SERVER_PORT value `"@ + value + "`"@,
            ConfigErrorView::InvalidFlag { name, value } => "invalid "@ + name + " value `"@ + value
                + "`; expected true or false"@,
        }
    }
}

impl ConfigError {
    /// The message for the operator.
    pub fn message(&self) -> (r: String)
        ensures
            r@ == self@.text(),
    {
        match self {
            ConfigError::InvalidPort(value) => {
                "invalid SERVER_PORT value `".to_string().concat(value.as_str()).concat("`")
            },
            ConfigError::InvalidFlag { name, value } => {
                "invalid ".to_string().concat(name.as_str()).concat(" value `").concat(
                    value.as_str(),
                ).concat("`; expected true or false")
            },
        }
    }
}

/// A setting that the environment gives has the environment's value, whatever
/// the file says.
pub proof fn environment_overrides_file(file: FileConfig, env: Environment)
    requires
        loaded(file, env) is Ok,
    ensures
        env.blink_api_url matches Some(s) ==> loaded(file, env)->Ok_0.backend.api_url == s@,
        env.blink_api_key matches Some(s) ==> loaded(file, env)->Ok_0.backend.api_key == s@,
        env.blink_wallet_id matches Some(s) ==> loaded(file, env)->Ok_0.backend.wallet_id == s@,
        env.server_address matches Some(s) ==> loaded(file, env)->Ok_0.address == s@,
        env.server_port matches Some(s) ==> Some(loaded(file, env)->Ok_0.port) == port_value(s@),
        env.tls_enable matches Some(s) ==> Some(loaded(file, env)->Ok_0.tls_enable) == flag_value(
            s@,
        ),
        env.tls_cert_path matches Some(s) ==> loaded(file, env)->Ok_0.tls_cert_path == s@,
        env.tls_key_path matches Some(s) ==> loaded(file, env)->Ok_0.tls_key_path == s@,
{
}

/// A setting that the environment leaves alone has the file's value, if the
/// file gives one.
pub proof fn file_overrides_defaults(file: FileConfig, env: Environment)
    requires
        loaded(file, env) is Ok,
    ensures
        env.blink_api_url is None ==> (file.backend.api_url matches Some(s) ==> loaded(
            file,
            env,
        )->Ok_0.backend.api_url == s@),
        env.blink_api_key is None ==> (file.backend.api_key matches Some(s) ==> loaded(
            file,
            env,
        )->Ok_0.backend.api_key == s@),
        env.blink_wallet_id is None ==> (file.backend.wallet_id matches Some(s) ==> loaded(
            file,
            env,
        )->Ok_0.backend.wallet_id == s@),
        env.server_address is None ==> (file.address matches Some(s) ==> loaded(
            file,
            env,
        )->Ok_0.address == s@),
        env.server_port is None ==> (file.port matches Some(n) ==> loaded(file, env)->Ok_0.port
            == n),
        env.tls_enable is None ==> (file.tls_enable matches Some(b) ==> loaded(
            file,
            env,
        )->Ok_0.tls_enable == b),
        env.tls_cert_path is None ==> (file.tls_cert_path matches Some(s) ==> loaded(
            file,
            env,
        )->Ok_0.tls_cert_path == s@),
        env.tls_key_path is None ==> (file.tls_key_path matches Some(s) ==> loaded(
            file,
            env,
        )->Ok_0.tls_key_path == s@),
{
}

/// A setting that neither the environment nor the file gives has its default.
pub proof fn defaults_fill_the_rest(file: FileConfig, env: Environment)
    requires
        loaded(file, env) is Ok,
    ensures
        env.blink_api_url is None && file.backend.api_url is None ==> loaded(
            file,
            env,
        )->Ok_0.backend.api_url == default_view().backend.api_url,
        env.blink_api_key is None && file.backend.api_key is None ==> loaded(
            file,
            env,
        )->Ok_0.backend.api_key == default_view().backend.api_key,
        env.blink_wallet_id is None && file.backend.wallet_id is None ==> loaded(
            file,
            env,
        )->Ok_0.backend.wallet_id == default_view().backend.wallet_id,
        env.server_address is None && file.address is None ==> loaded(file, env)->Ok_0.address
            == default_view().address,
        env.server_port is None && file.port is None ==> loaded(file, env)->Ok_0.port
            == default_view().port,
        env.tls_enable is None && file.tls_enable is None ==> loaded(file, env)->Ok_0.tls_enable
            == default_view().tls_enable,
        env.tls_cert_path is None && file.tls_cert_path is None ==> loaded(
            file,
            env,
        )->Ok_0.tls_cert_path == default_view().tls_cert_path,
        env.tls_key_path is None && file.tls_key_path is None ==> loaded(
            file,
            env,
        )->Ok_0.tls_key_path == default_view().tls_key_path,
{
}

/// Loading fails exactly if a variable that is set cannot be read; the file
/// plays no part in it.
pub proof fn only_unreadable_variables_fail(file: FileConfig, env: Environment)
    ensures
        loaded(file, env) is Err <==> env.bad_port() || env.bad_flag(),
{
}

} // verus!
