//! What holds of the configuration, of how the server starts, and of delays.

use vstd::prelude::*;

use crate::backoff::{doubled, next_delay};
use crate::laws::text::{decimal_reads_back, written_numbers_are_read};
use crate::settings::{
    default_address, default_api_url, default_port, default_tls_cert_path, default_tls_key_path,
    loaded, parse_bool_env, port_value, BackendConfig, Config, ConfigError, Environment, FileConfig,
};
use crate::startup::{ca_file_name, certificate_chain, needs_certificates, Startup};
use crate::text::{
    after_plus, all_digits, ascii_lower, decimal, digits_value, same_ignoring_case, trimmed,
};

verus! {

// ---------------------------------------------------------------------------
// Configuration
// ---------------------------------------------------------------------------

/// Whether a text has the value that it is given in the environment, else in the
/// file, else by default.
pub open spec fn is_given(
    value: String,
    in_environment: Option<String>,
    in_file: Option<String>,
    default: Seq<char>,
) -> bool {
    &&& in_environment matches Some(s) ==> value@ == s@
    &&& in_environment is None ==> (in_file matches Some(s) ==> value@ == s@)
    &&& in_environment is None && in_file is None ==> value@ == default
}

/// Every text of the configuration is the environment's, else the file's, else the
/// built-in one.
pub proof fn texts_have_their_source(
    file: FileConfig,
    env: Environment,
    r: Result<Config, ConfigError>,
)
    requires
        call_ensures(Config::load, (file, env), r),
    ensures
        r matches Ok(config) ==> {
            &&& is_given(
                config.backend.api_url,
                env.blink_api_url,
                file.backend.api_url,
                "https://api.blink.sv/graphql"@,
            )
            &&& is_given(
                config.backend.api_key,
                env.blink_api_key,
                file.backend.api_key,
                Seq::empty(),
            )
            &&& is_given(
                config.backend.wallet_id,
                env.blink_wallet_id,
                file.backend.wallet_id,
                Seq::empty(),
            )
            &&& is_given(config.address, env.server_address, file.address, "0.0.0.0"@)
            &&& is_given(
                config.tls_cert_path,
                env.tls_cert_path,
                file.tls_cert_path,
                "certs/server.crt"@,
            )
            &&& is_given(
                config.tls_key_path,
                env.tls_key_path,
                file.tls_key_path,
                "certs/server.key"@,
            )
        },
{
    let config = r->Ok_0;
    assert(r is Ok ==> config@ == loaded(file, env)->Ok_0);
}

/// Whether a text is a number of decimal digits, after an optional plus sign.
pub open spec fn is_number(s: Seq<char>, n: int) -> bool {
    if s.len() > 0 && s[0] == '+' {
        s.len() > 1 && all_digits(s.skip(1)) && digits_value(s.skip(1)) == n
    } else {
        s.len() > 0 && all_digits(s) && digits_value(s) == n
    }
}

/// The port is that of the environment, else the file's, else 50051; a text in the
/// environment that is no port number is refused, and named.
pub proof fn port_has_its_source(
    file: FileConfig,
    env: Environment,
    r: Result<Config, ConfigError>,
)
    requires
        call_ensures(Config::load, (file, env), r),
    ensures
        r matches Ok(config) ==> {
            &&& env.server_port matches Some(s) ==> is_number(s@, config.port as int)
            &&& env.server_port is None ==> (file.port matches Some(n) ==> config.port == n)
            &&& env.server_port is None && file.port is None ==> config.port == 50051
        },
        env.server_port matches Some(s) ==> ((forall|n: int| is_number(s@, n) ==> n > 65535) ==> (
        r matches Err(e) && e@.text() == "invalid SERVER_PORT value `"@ + s@ + "`"@)),
{
    if let Some(s) = env.server_port {
        if port_value(s@) is Some {
            let n = digits_value(after_plus(s@)) as int;
            if s@[0] == '+' {
                assert(is_number(s@, n));
            } else {
                assert(is_number(s@, n));
            }
        }
    }
    assert(r matches Ok(config) ==> config@ == loaded(file, env)->Ok_0);
}

/// Whether a text says yes: one of these words, white space around it and letter case
/// aside.
pub open spec fn says_yes(s: Seq<char>) -> bool {
    let word = trimmed(s);
    same_ignoring_case(word, "1"@) || same_ignoring_case(word, "true"@) || same_ignoring_case(
        word,
        "yes"@,
    ) || same_ignoring_case(word, "on"@)
}

/// Whether a text says no.
pub open spec fn says_no(s: Seq<char>) -> bool {
    let word = trimmed(s);
    same_ignoring_case(word, "0"@) || same_ignoring_case(word, "false"@) || same_ignoring_case(
        word,
        "no"@,
    ) || same_ignoring_case(word, "off"@)
}

/// The words for yes and no are in small letters, and different.
proof fn words_are_in_small_letters()
    ensures
        ascii_lower("1"@) == "1"@ && ascii_lower("true"@) == "true"@ && ascii_lower("yes"@)
            == "yes"@ && ascii_lower("on"@) == "on"@,
        ascii_lower("0"@) == "0"@ && ascii_lower("false"@) == "false"@ && ascii_lower("no"@)
            == "no"@ && ascii_lower("off"@) == "off"@,
        "1"@ != "0"@ && "1"@ != "false"@ && "1"@ != "no"@ && "1"@ != "off"@,
        "true"@ != "0"@ && "true"@ != "false"@ && "true"@ != "no"@ && "true"@ != "off"@,
        "yes"@ != "0"@ && "yes"@ != "false"@ && "yes"@ != "no"@ && "yes"@ != "off"@,
        "on"@ != "0"@ && "on"@ != "false"@ && "on"@ != "no"@ && "on"@ != "off"@,
{
    reveal_strlit("1");
    reveal_strlit("true");
    reveal_strlit("yes");
    reveal_strlit("on");
    reveal_strlit("0");
    reveal_strlit("false");
    reveal_strlit("no");
    reveal_strlit("off");
    assert(ascii_lower("1"@) =~= "1"@);
    assert(ascii_lower("true"@) =~= "true"@);
    assert(ascii_lower("yes"@) =~= "yes"@);
    assert(ascii_lower("on"@) =~= "on"@);
    assert(ascii_lower("0"@) =~= "0"@);
    assert(ascii_lower("false"@) =~= "false"@);
    assert(ascii_lower("no"@) =~= "no"@);
    assert(ascii_lower("off"@) =~= "off"@);
    assert("1"@[0] == '1' && "true"@[0] == 't' && "yes"@[0] == 'y' && "on"@[0] == 'o');
    assert("0"@[0] == '0' && "false"@[0] == 'f' && "no"@[0] == 'n' && "off"@[0] == 'o');
    assert("on"@.len() == 2 && "off"@.len() == 3);
}

/// A variable is read as true if it says yes, as false if it says no, and refused by
/// its name otherwise.
pub proof fn flags_say_yes_or_no(name: &str, value: &str, r: Result<bool, ConfigError>)
    requires
        call_ensures(parse_bool_env, (name, value), r),
    ensures
        r == Ok::<bool, ConfigError>(true) <==> says_yes(value@),
        r == Ok::<bool, ConfigError>(false) <==> says_no(value@),
        r matches Err(e) ==> e@.text() == "invalid "@ + name@ + " value `"@ + value@
            + "`; expected true or false"@,
{
    words_are_in_small_letters();
}

/// Whether the environment leaves the port open, or gives one that can be used.
pub open spec fn port_can_be_used(env: Environment) -> bool {
    env.server_port matches Some(s) ==> exists|n: int| #[trigger] is_number(s@, n) && n <= 65535
}

/// Whether TLS is used is said by the environment, else by the file, and else it is
/// not; what says neither yes nor no is refused.
pub proof fn tls_has_its_source(file: FileConfig, env: Environment, r: Result<Config, ConfigError>)
    requires
        call_ensures(Config::load, (file, env), r),
    ensures
        r matches Ok(config) ==> {
            &&& env.tls_enable matches Some(s) ==> if config.tls_enable {
                says_yes(s@)
            } else {
                says_no(s@)
            }
            &&& env.tls_enable is None ==> (file.tls_enable matches Some(b) ==> config.tls_enable
                == b)
            &&& env.tls_enable is None && file.tls_enable is None ==> !config.tls_enable
        },
        port_can_be_used(env) ==> (env.tls_enable matches Some(s) ==> (!says_yes(s@) && !says_no(s@)
            ==> (r matches Err(e) && e@.text() == "invalid "@ + "TLS_ENABLE"@ + " value `"@ + s@
            + "`; expected true or false"@))),
        port_can_be_used(env) && (env.tls_enable matches Some(s) ==> says_yes(s@) || says_no(s@))
            ==> r is Ok,
{
    words_are_in_small_letters();
    assert(r matches Ok(config) ==> config@ == loaded(file, env)->Ok_0);
}

/// A port that is written in decimal digits in the environment is the one that is
/// used.
pub proof fn written_ports_are_used(
    file: FileConfig,
    env: Environment,
    port: u16,
    s: String,
    r: Result<Config, ConfigError>,
)
    requires
        env.server_port == Some(s),
        s@ == decimal(port as nat),
        env.tls_enable is None,
        call_ensures(Config::load, (file, env), r),
    ensures
        r matches Ok(config) && config.port == port,
{
    written_numbers_are_read(port as nat);
    assert(r matches Ok(config) ==> config@ == loaded(file, env)->Ok_0);
}

/// Loading from the environment is loading.
pub proof fn from_env_is_load(
    file: FileConfig,
    env: Environment,
    a: Result<Config, ConfigError>,
    b: Result<Config, ConfigError>,
)
    requires
        call_ensures(Config::load, (file, env), a),
        call_ensures(Config::from_env, (file, env), b),
    ensures
        a is Ok <==> b is Ok,
        a is Ok ==> a->Ok_0@ == b->Ok_0@,
        a is Err ==> a->Err_0@ == b->Err_0@,
{
}

/// The built-in settings.
pub proof fn built_in_settings(
    api_url: String,
    address: String,
    port: u16,
    cert: String,
    key: String,
    backend: BackendConfig,
    config: Config,
)
    requires
        call_ensures(default_api_url, (), api_url),
        call_ensures(default_address, (), address),
        call_ensures(default_port, (), port),
        call_ensures(default_tls_cert_path, (), cert),
        call_ensures(default_tls_key_path, (), key),
        call_ensures(<BackendConfig as Default>::default, (), backend),
        call_ensures(<Config as Default>::default, (), config),
    ensures
        api_url@ == "https://api.blink.sv/graphql"@,
        address@ == "0.0.0.0"@,
        port == 50051,
        cert@ == "certs/server.crt"@,
        key@ == "certs/server.key"@,
        backend.api_url@ == api_url@ && backend.api_key@.len() == 0 && backend.wallet_id@.len()
            == 0,
        config.backend@ == backend@ && config.address@ == address@ && config.port == port
            && !config.tls_enable && config.tls_cert_path@ == cert@ && config.tls_key_path@ == key@,
{
    assert(config@.backend == backend@);
    assert(config@.port == config.port && config@.tls_enable == config.tls_enable);
}

// ---------------------------------------------------------------------------
// Startup
// ---------------------------------------------------------------------------

/// The server starts if and only if there is an API key. It listens on the configured
/// address and port, and uses the configured certificate and key if and only if TLS
/// is enabled.
pub proof fn server_starts_as_configured(cfg: Config, r: Startup)
    requires
        call_ensures(Startup::plan, (&cfg,), r),
    ensures
        r is MissingApiKey <==> cfg.backend.api_key@.len() == 0,
        r matches Startup::Serve { address, tls } ==> {
            &&& address@.len() > cfg.address@.len() + 1
            &&& address@.take(cfg.address@.len() as int) == cfg.address@
            &&& address@[cfg.address@.len() as int] == ':'
            &&& all_digits(address@.skip(cfg.address@.len() as int + 1))
            &&& digits_value(address@.skip(cfg.address@.len() as int + 1)) == cfg.port
            &&& tls is Some <==> cfg.tls_enable
            &&& tls matches Some(paths) ==> paths.cert@ == cfg.tls_cert_path@ && paths.key@
                == cfg.tls_key_path@
        },
{
    reveal_strlit(":");
    decimal_reads_back(cfg.port as nat);
    if let Startup::Serve { address, tls } = r {
        let n = cfg.address@.len() as int;
        assert(address@ == cfg.address@ + ":"@ + decimal(cfg.port as nat));
        assert(address@.take(n) =~= cfg.address@);
        assert(address@.skip(n + 1) =~= decimal(cfg.port as nat));
    }
}

/// The issuer's file stands beside the server's certificate under its name.
pub proof fn issuer_is_named_after_the_certificate(stem: &str, named: String, unnamed: String)
    requires
        call_ensures(ca_file_name, (Some(stem),), named),
        call_ensures(ca_file_name, (None::<&str>,), unnamed),
    ensures
        named@ == stem@ + ".ca.pem"@,
        unnamed@ == "cert.ca.pem"@,
{
    reveal_strlit("cert");
    reveal_strlit(".ca.pem");
    reveal_strlit("cert.ca.pem");
    assert(unnamed@ =~= "cert.ca.pem"@);
}

/// Certificates are generated if and only if one of the two files is missing.
pub proof fn missing_files_are_generated(cert: bool, key: bool, r: bool)
    requires
        call_ensures(needs_certificates, (cert, key), r),
    ensures
        r <==> !cert || !key,
{
}

/// The chain is the certificate, then on a new line that of the issuer, if there is
/// one.
pub proof fn chain_ends_with_the_issuer(cert: Vec<u8>, ca: Option<Vec<u8>>, r: Vec<u8>)
    requires
        call_ensures(certificate_chain, (cert, ca), r),
    ensures
        r@.len() >= cert@.len(),
        r@.take(cert@.len() as int) == cert@,
        ca is None ==> r@.len() == cert@.len(),
        ca matches Some(issuer) ==> r@.len() == cert@.len() + 1 + issuer@.len()
            && r@[cert@.len() as int] == 10 && r@.skip(cert@.len() as int + 1) == issuer@,
{
    assert(r@.take(cert@.len() as int) =~= cert@);
    if let Some(issuer) = ca {
        assert(r@.skip(cert@.len() as int + 1) =~= issuer@);
    }
}

// ---------------------------------------------------------------------------
// Delays
// ---------------------------------------------------------------------------

/// A delay is followed by one twice as long, or by the cap if that would be longer.
pub proof fn delays_double_or_reach_the_cap(delay: u64, cap: u64, r: u64)
    requires
        call_ensures(next_delay, (delay, cap), r),
    ensures
        delay + delay <= cap ==> r == delay + delay,
        delay + delay > cap ==> r == cap,
        r == doubled(delay, cap),
{
}

/// An operator is told which variable has what wrong value.
pub proof fn wrong_values_are_named(e: ConfigError, r: String)
    requires
        call_ensures(ConfigError::message, (&e,), r),
    ensures
        e matches ConfigError::InvalidPort(value) ==> r@ == "invalid SERVER_PORT value `"@ + value@
            + "`"@,
        e matches ConfigError::InvalidFlag { name, value } ==> r@ == "invalid "@ + name@
            + " value `"@ + value@ + "`; expected true or false"@,
{
}

} // verus!
