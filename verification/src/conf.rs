//! Resolution of the bind address from layered configuration sources.
//!
//! Precedence, highest first: an explicit command-line argument, the combined
//! `BIND` variable, the separate `HOST` and `PORT` variables, and finally the
//! hard-coded defaults `0.0.0.0` and `8080`. Resolution is total: no input is
//! rejected here, and a malformed address surfaces only when a listener tries
//! to bind it.

use vstd::prelude::*;
use vstd::string::StringExecFns;

verus! {

/// The values of the recognized environment variables, captured once at
/// startup. A variable that is unset maps to `None`. Keeping the environment
/// as an explicit value makes every resolver below a pure function of it.
pub struct EnvSource {
    pub bind: Option<String>,
    pub host: Option<String>,
    pub port: Option<String>,
}

/// Mathematical model of an [`EnvSource`]: each variable as an optional
/// sequence of characters.
pub struct EnvSnapshot {
    pub bind: Option<Seq<char>>,
    pub host: Option<Seq<char>>,
    pub port: Option<Seq<char>>,
}

impl View for EnvSource {
    type V = EnvSnapshot;

    open spec fn view(&self) -> EnvSnapshot {
        EnvSnapshot { bind: self.bind.deep_view(), host: self.host.deep_view(), port: self.port.deep_view() }
    }
}

/// A configuration value counts only when it is set and non-empty.
pub open spec fn present(v: Option<Seq<char>>) -> bool {
    v is Some && v->0.len() > 0
}

pub open spec fn default_host() -> Seq<char> {
    "0.0.0.0"@
}

pub open spec fn default_port() -> Seq<char> {
    "8080"@
}

/// The host: `HOST` when set and non-empty, otherwise the default host.
pub open spec fn host_spec(env: EnvSnapshot) -> Seq<char> {
    if present(env.host) {
        env.host->0
    } else {
        default_host()
    }
}

/// The port: `PORT` when set and non-empty, otherwise the default port.
pub open spec fn port_spec(env: EnvSnapshot) -> Seq<char> {
    if present(env.port) {
        env.port->0
    } else {
        default_port()
    }
}

/// The bind address: `BIND` when set and non-empty, otherwise host and port
/// joined by a colon.
pub open spec fn bind_spec(env: EnvSnapshot) -> Seq<char> {
    if present(env.bind) {
        env.bind->0
    } else {
        host_spec(env) + ":"@ + port_spec(env)
    }
}

/// The address the listener binds: a non-empty command-line argument verbatim,
/// otherwise the environment-resolved bind address.
pub open spec fn effective_address_spec(cli_arg: Option<Seq<char>>, env: EnvSnapshot) -> Seq<char> {
    if present(cli_arg) {
        cli_arg->0
    } else {
        bind_spec(env)
    }
}

/// Get the host string from the environment variable `HOST`,
/// or return the default host IP address string `0.0.0.0`.
pub fn host_string(env: &EnvSource) -> (r: String)
    ensures
        r@ == host_spec(env@),
{
    if let Some(h) = &env.host {
        if !h.as_str().is_empty() {
            return h.clone();
        }
    }
    "0.0.0.0".to_owned()
}

/// Get the port string from the environment variable `PORT`,
/// or return the default port number string `8080`.
pub fn port_string(env: &EnvSource) -> (r: String)
    ensures
        r@ == port_spec(env@),
{
    if let Some(p) = &env.port {
        if !p.as_str().is_empty() {
            return p.clone();
        }
    }
    "8080".to_owned()
}

/// Get the bind string from the environment variable `BIND`,
/// or return the host and port strings joined by a colon.
pub fn bind_string(env: &EnvSource) -> (r: String)
    ensures
        r@ == bind_spec(env@),
{
    if let Some(b) = &env.bind {
        if !b.as_str().is_empty() {
            return b.clone();
        }
    }
    let h = host_string(env);
    let p = port_string(env);
    h.concat(":").concat(p.as_str())
}

/// The address the server binds: a non-empty command-line argument wins over
/// every environment variable; otherwise the environment decides.
pub fn resolve_effective_address(cli_arg: Option<String>, env: &EnvSource) -> (r: String)
    ensures
        r@ == effective_address_spec(cli_arg.deep_view(), env@),
{
    if let Some(a) = cli_arg {
        if !a.as_str().is_empty() {
            return a;
        }
    }
    bind_string(env)
}

/// With no variable set and no command-line argument, resolution yields
/// exactly the default address `0.0.0.0:8080`.
pub proof fn lemma_default_effective_address(env: EnvSnapshot)
    requires
        env.bind is None,
        env.host is None,
        env.port is None,
    ensures
        effective_address_spec(None, env) == "0.0.0.0:8080"@,
{
    reveal_strlit("0.0.0.0");
    reveal_strlit("8080");
    reveal_strlit(":");
    reveal_strlit("0.0.0.0:8080");
    assert(effective_address_spec(None, env) =~= "0.0.0.0:8080"@);
}

/// A non-empty `BIND` value is returned verbatim, whatever `HOST` and `PORT`
/// hold, when no command-line argument is given. An empty `BIND` does not
/// count as set, so the law asks for a non-empty value.
pub proof fn lemma_bind_env_wins(s: Seq<char>, env: EnvSnapshot)
    requires
        env.bind == Some(s),
        s.len() > 0,
    ensures
        effective_address_spec(None, env) == s,
{
}

/// With `BIND` unset and non-empty `HOST` and `PORT` values, resolution joins
/// them with a colon. Empty values do not count as set, so the law asks for
/// non-empty ones.
pub proof fn lemma_host_port_compose(h: Seq<char>, p: Seq<char>, env: EnvSnapshot)
    requires
        !present(env.bind),
        env.host == Some(h),
        env.port == Some(p),
        h.len() > 0,
        p.len() > 0,
    ensures
        effective_address_spec(None, env) == h + ":"@ + p,
{
}

/// A non-empty command-line argument is returned verbatim, regardless of the
/// whole environment state.
pub proof fn lemma_cli_arg_wins(a: Seq<char>, env: EnvSnapshot)
    requires
        a.len() > 0,
    ensures
        effective_address_spec(Some(a), env) == a,
{
}

/// Resolution is idempotent: every resolver is a function of the environment
/// snapshot alone, so two resolutions against unchanged state agree — for the
/// host, the port, the bind address and the effective address alike.
pub proof fn lemma_resolution_idempotent(cli_arg: Option<Seq<char>>, env1: EnvSnapshot, env2: EnvSnapshot)
    requires
        env1 == env2,
    ensures
        host_spec(env1) == host_spec(env2),
        port_spec(env1) == port_spec(env2),
        bind_spec(env1) == bind_spec(env2),
        effective_address_spec(cli_arg, env1) == effective_address_spec(cli_arg, env2),
{
}

} // verus!
