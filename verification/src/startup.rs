//! Decisions taken when the program starts: whether the web studio runs,
//! whether a configuration may run at all, and which gateways start.
use vstd::prelude::*;

use crate::config::{RawConfig, StreamMode};
use crate::decimal::{decimal, decimal_string};
use crate::text::{copy_str, eq_ignore_case, join2, lower, trim, trim_str, to_lower};
use crate::wizard::dual_port_clash;

verus! {

/// The values read as "on".
pub open spec fn truthy(v: Seq<char>) -> bool {
    v == "1"@ || v == "true"@ || v == "yes"@ || v == "on"@ || v == "enable"@ || v == "enabled"@
}

/// The values read as "off".
pub open spec fn falsy(v: Seq<char>) -> bool {
    v == "0"@ || v == "false"@ || v == "no"@ || v == "off"@ || v == "disable"@ || v == "disabled"@
}

/// A boolean-like environment value, read after trimming and ASCII
/// lower-casing: `None` for a value that is neither on nor off.
pub open spec fn env_bool(value: Seq<char>) -> Option<bool> {
    let v = lower(trim(value));
    if truthy(v) {
        Some(true)
    } else if falsy(v) {
        Some(false)
    } else {
        None
    }
}

/// Reads a boolean-like environment value: see `env_bool`.
pub fn parse_env_bool(value: &str) -> (r: Option<bool>)
    ensures
        r == env_bool(value@),
{
    let t = trim_str(value);
    let v = to_lower(t.as_str());
    let s = v.as_str();
    proof {
        reveal_strlit("1");
        reveal_strlit("true");
        reveal_strlit("yes");
        reveal_strlit("on");
        reveal_strlit("enable");
        reveal_strlit("enabled");
        reveal_strlit("0");
        reveal_strlit("false");
        reveal_strlit("no");
        reveal_strlit("off");
        reveal_strlit("disable");
        reveal_strlit("disabled");
    }
    let eq = |a: &str, b: &str| -> (r: bool)
        ensures
            r == (a@ == b@),
        { crate::playback_service::str_eq(a, b) };
    if eq(s, "1") || eq(s, "true") || eq(s, "yes") || eq(s, "on") || eq(s, "enable") || eq(
        s,
        "enabled",
    ) {
        Some(true)
    } else if eq(s, "0") || eq(s, "false") || eq(s, "no") || eq(s, "off") || eq(s, "disable")
        || eq(s, "disabled") {
        Some(false)
    } else {
        None
    }
}

/// Whether the web studio starts: the value of `WEB_ENABLE` (or, when that
/// is unset, of `web_enable`) decides when it reads as on or off; otherwise
/// the `--web` flag does.
pub open spec fn web_studio_on(upper: Option<Seq<char>>, lower_name: Option<Seq<char>>, flag: bool) -> bool {
    let value = match upper {
        Some(v) => Some(v),
        None => lower_name,
    };
    match value {
        Some(v) => match env_bool(v) {
            Some(b) => b,
            None => flag,
        },
        None => flag,
    }
}

/// Whether the web studio starts, from the two environment values (absent
/// when unset) and the `--web` flag: see `web_studio_on`.
pub fn web_studio_enabled(upper: Option<&str>, lower_name: Option<&str>, flag: bool) -> (r: bool)
    ensures
        r == web_studio_on(
            crate::playback_service::opt_str_view(upper),
            crate::playback_service::opt_str_view(lower_name),
            flag,
        ),
{
    let value = match upper {
        Some(v) => Some(v),
        None => lower_name,
    };
    match value {
        Some(v) => match parse_env_bool(v) {
            Some(b) => b,
            None => flag,
        },
        None => flag,
    }
}

/// Boolean-like environment values are read up to ASCII case and
/// surrounding whitespace.
pub proof fn lemma_env_bool_case_and_space_insensitive(v: Seq<char>, w: Seq<char>)
    requires
        eq_ignore_case(trim(v), trim(w)),
    ensures
        env_bool(v) == env_bool(w),
{
}

/// A recognized `WEB_ENABLE` (or, unset, `web_enable`) value decides alone;
/// an unset or unrecognized one leaves the decision to the `--web` flag.
pub proof fn lemma_web_env_overrides_flag(
    upper: Option<Seq<char>>,
    lower_name: Option<Seq<char>>,
    flag: bool,
)
    ensures
        ({
            let value = match upper {
                Some(v) => Some(v),
                None => lower_name,
            };
            &&& (value is Some && env_bool(value->0) is Some) ==> web_studio_on(upper, lower_name, flag)
                == env_bool(value->0)->0
            &&& (value is None || env_bool(value->0) is None) ==> web_studio_on(upper, lower_name, flag) == flag
        }),
{
}

/// The message that refuses a dual-mode configuration whose gateways share
/// `port`.
pub open spec fn dual_port_message(port: u16) -> Seq<char> {
    "Dual mode port conflict: frontend & backend cannot both use "@ + decimal(port as nat) + "."@
}

/// Refuses a dual-mode configuration whose two gateways listen on the same
/// port.
pub fn validate_dual_mode_ports(raw: &RawConfig) -> (r: Result<(), String>)
    ensures
        match dual_port_clash(raw@) {
            Some(p) => r matches Err(m) && m@ == dual_port_message(p),
            None => r is Ok,
        },
{
    match crate::wizard::dual_port_conflict(raw) {
        Some(p) => {
            let n = decimal_string(p as u64);
            let a = join2("Dual mode port conflict: frontend & backend cannot both use ", n.as_str());
            Err(join2(a.as_str(), "."))
        },
        None => Ok(()),
    }
}

/// The `[Http2]` section after the command line's certificate and key
/// overrides: each given path replaces the configured one; when the file has
/// no `[Http2]` and a path is given, the section is created with the other
/// path empty.
pub open spec fn http2_with_overrides(
    http2: Option<crate::config::Http2>,
    cert: Option<String>,
    key: Option<String>,
) -> Option<(Seq<char>, Seq<char>)> {
    let (c0, k0): (Seq<char>, Seq<char>) = match http2 {
        Some(h) => (h.ssl_cert_file@, h.ssl_key_file@),
        None => (Seq::empty(), Seq::empty()),
    };
    if http2 is None && cert is None && key is None {
        None
    } else {
        Some((
            match cert {
                Some(c) => c@,
                None => c0,
            },
            match key {
                Some(k) => k@,
                None => k0,
            },
        ))
    }
}

/// Applies `--ssl-cert-file` and `--ssl-key-file` to the configuration: see
/// `http2_with_overrides`. Nothing else changes.
pub fn apply_ssl_overrides(raw: &mut RawConfig, cert: Option<String>, key: Option<String>)
    ensures
        match final(raw).http2 {
            Some(h) => http2_with_overrides(old(raw).http2, cert, key) == Some(
                (h.ssl_cert_file@, h.ssl_key_file@),
            ),
            None => http2_with_overrides(old(raw).http2, cert, key) is None,
        },
        final(raw).general == old(raw).general,
        final(raw).log == old(raw).log,
        final(raw).emby == old(raw).emby,
        final(raw).user_agent == old(raw).user_agent,
        final(raw).frontend == old(raw).frontend,
        final(raw).backend == old(raw).backend,
        final(raw).backend_nodes == old(raw).backend_nodes,
        final(raw).disk == old(raw).disk,
        final(raw).open_list == old(raw).open_list,
        final(raw).direct_link == old(raw).direct_link,
        final(raw).fallback == old(raw).fallback,
{
    if raw.http2.is_none() && cert.is_none() && key.is_none() {
        return;
    }
    let mut h = match raw.http2.take() {
        Some(h) => h,
        None => crate::config::Http2 { ssl_cert_file: String::new(), ssl_key_file: String::new() },
    };
    if let Some(c) = cert {
        h.ssl_cert_file = c;
    }
    if let Some(k) = key {
        h.ssl_key_file = k;
    }
    raw.http2 = Some(h);
}

/// Whether the frontend gateway runs in this mode.
pub fn runs_frontend(mode: StreamMode) -> (r: bool)
    ensures
        r == (mode == StreamMode::Frontend || mode == StreamMode::Dual),
{
    match mode {
        StreamMode::Frontend | StreamMode::Dual => true,
        StreamMode::Backend => false,
    }
}

/// Whether the backend gateway runs in this mode.
pub fn runs_backend(mode: StreamMode) -> (r: bool)
    ensures
        r == (mode == StreamMode::Backend || mode == StreamMode::Dual),
{
    match mode {
        StreamMode::Backend | StreamMode::Dual => true,
        StreamMode::Frontend => false,
    }
}

/// The directory the web studio keeps its runtime logs in: the one given on
/// the command line, else the configuration's log directory, else
/// `web-config/logs`.
pub fn web_runtime_log_dir(given: &str, config_log_root: Option<&str>) -> (r: String)
    ensures
        given@.len() > 0 ==> r@ == given@,
        given@.len() == 0 ==> r@ == match config_log_root {
            Some(c) => c@,
            None => "web-config/logs"@,
        },
{
    if !given.is_empty() {
        return copy_str(given);
    }
    match config_log_root {
        Some(c) => copy_str(c),
        None => copy_str("web-config/logs"),
    }
}

/// The directory the web studio reads the stream logs from: the
/// configuration's log directory, else `./logs`.
pub fn stream_log_dir(config_log_root: Option<&str>) -> (r: String)
    ensures
        r@ == match config_log_root {
            Some(c) => c@,
            None => "./logs"@,
        },
{
    match config_log_root {
        Some(c) => copy_str(c),
        None => copy_str("./logs"),
    }
}

/// How loading the configuration ended.
#[derive(Clone, Copy, Debug, PartialEq, Eq, Structural)]
pub enum LoadOutcome {
    /// A configuration was loaded.
    Loaded,
    /// None was found; a template was written.
    TemplateCreated,
    /// It could not be loaded.
    Failed,
}

/// What `run` does after loading the configuration.
#[derive(Clone, Copy, Debug, PartialEq, Eq, Structural)]
pub struct StartupPlan {
    /// Start the web studio.
    pub start_web: bool,
    /// Start the stream gateways.
    pub start_stream: bool,
    /// Exit at once with this code.
    pub exit_code: Option<i32>,
    /// A failure to start the gateways ends `run` with that error; when it
    /// does not, the failure is only reported and the web studio keeps
    /// running.
    pub stream_failure_ends_run: bool,
}

/// What `run` does: the web studio starts whenever it is enabled; the
/// gateways start only from a loaded configuration; without the studio a
/// created template ends the program with 0, a failure to load with 1, and a
/// failure to start the gateways ends `run` with that error, while with the
/// studio such a failure is only reported.
pub fn startup_plan(outcome: LoadOutcome, web_enabled: bool) -> (r: StartupPlan)
    ensures
        r.start_web == web_enabled,
        r.start_stream == (outcome == LoadOutcome::Loaded),
        r.exit_code == (if web_enabled || outcome == LoadOutcome::Loaded {
            None
        } else if outcome == LoadOutcome::TemplateCreated {
            Some(0i32)
        } else {
            Some(1i32)
        }),
        r.stream_failure_ends_run == !web_enabled,
{
    match outcome {
        LoadOutcome::Loaded => StartupPlan {
            start_web: web_enabled,
            start_stream: true,
            exit_code: None,
            stream_failure_ends_run: !web_enabled,
        },
        LoadOutcome::TemplateCreated => StartupPlan {
            start_web: web_enabled,
            start_stream: false,
            exit_code: if web_enabled { None } else { Some(0) },
            stream_failure_ends_run: !web_enabled,
        },
        LoadOutcome::Failed => StartupPlan {
            start_web: web_enabled,
            start_stream: false,
            exit_code: if web_enabled { None } else { Some(1) },
            stream_failure_ends_run: !web_enabled,
        },
    }
}

} // verus!
