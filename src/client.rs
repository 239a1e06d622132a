//! The client: settings resolution through a builder, and the decisions
//! taken on each response of the server.
use vstd::prelude::*;
use vstd::string::StringExecFns;
use vstd::string::StrSliceExecFns;
use crate::config::Config;
use crate::schema::VaultSchemaV1;
use crate::error::{check_vault_error, status_error, VaultError, STATUS_OK};

verus! {

/// The port Vault listens on unless told otherwise.
pub const DEFAULT_PORT: u16 = 8200;

/// The address used when none is given.
pub open spec fn default_address() -> Seq<char> {
    seq!['1', '2', '7', '.', '0', '.', '0', '.', '1']
}

/// The protocol used when none is given.
pub open spec fn default_protocol() -> Seq<char> {
    seq!['h', 't', 't', 'p']
}

pub open spec fn is_digit(c: char) -> bool {
    '0' <= c && c <= '9'
}

/// The value of a run of decimal digits.
pub open spec fn digits_value(s: Seq<char>) -> nat
    decreases s.len(),
{
    if s.len() == 0 {
        0
    } else {
        digits_value(s.drop_last()) * 10 + ((s.last() as nat) - ('0' as nat)) as nat
    }
}

/// The digits of a port text: an optional leading `+` is dropped.
pub open spec fn port_digits(s: Seq<char>) -> Seq<char> {
    if s.len() > 0 && s[0] == '+' {
        s.subrange(1, s.len() as int)
    } else {
        s
    }
}

/// The port a text names: one or more decimal digits, with an optional
/// leading `+`, whose value fits in 16 bits.
pub open spec fn port_of_text(s: Seq<char>) -> Option<u16> {
    let d = port_digits(s);
    if d.len() > 0 && (forall|i: int| 0 <= i < d.len() ==> is_digit(#[trigger] d[i]))
        && digits_value(d) <= 65535 {
        Some(digits_value(d) as u16)
    } else {
        None
    }
}

proof fn lemma_digits_value_grows(s: Seq<char>, i: int, j: int)
    requires
        0 <= i <= j <= s.len(),
        forall|k: int| 0 <= k < s.len() ==> is_digit(#[trigger] s[k]),
    ensures
        digits_value(s.subrange(0, i)) <= digits_value(s.subrange(0, j)),
    decreases j - i,
{
    if i < j {
        lemma_digits_value_grows(s, i, j - 1);
        assert(s.subrange(0, j).drop_last() =~= s.subrange(0, j - 1));
    }
}

/// Reads a port number from text, as `str::parse::<u16>` does.
pub fn parse_port(text: &str) -> (r: Option<u16>)
    ensures
        r == port_of_text(text@),
{
    let n = text.unicode_len();
    let mut start: usize = 0;
    if n > 0 && text.get_char(0) == '+' {
        start = 1;
    }
    let ghost d = port_digits(text@);
    assert(d =~= text@.subrange(start as int, n as int));
    if start == n {
        return None;
    }
    let mut acc: u32 = 0;
    let mut i: usize = start;
    while i < n
        invariant
            start <= i <= n,
            n == text@.len(),
            d == text@.subrange(start as int, n as int),
            d == port_digits(text@),
            acc as nat == digits_value(d.subrange(0, i - start)),
            acc <= 65535,
            forall|k: int| 0 <= k < i - start ==> is_digit(#[trigger] d[k]),
        decreases n - i,
    {
        let c = text.get_char(i);
        if c < '0' || c > '9' {
            assert(!is_digit(d[i - start]));
            return None;
        }
        let v: u32 = (c as u32) - ('0' as u32);
        let next: u32 = acc * 10 + v;
        proof {
            let p = d.subrange(0, i - start + 1);
            assert(p.drop_last() =~= d.subrange(0, i - start));
            assert(p.last() == c);
        }
        if next > 65535 {
            proof {
                if forall|k: int| 0 <= k < d.len() ==> is_digit(#[trigger] d[k]) {
                    lemma_digits_value_grows(d, i - start + 1, d.len() as int);
                    assert(d.subrange(0, d.len() as int) =~= d);
                }
            }
            return None;
        }
        acc = next;
        i = i + 1;
    }
    assert(d.subrange(0, n - start) =~= d);
    Some(acc as u16)
}

/// Values read from the process environment, one per setting; `None` where
/// the variable is not set.
pub struct EnvValues {
    pub secret_path: Option<String>,
    pub address: Option<String>,
    pub port: Option<String>,
    pub token: Option<String>,
    pub protocol: Option<String>,
}

pub open spec fn opt_view(o: Option<String>) -> Option<Seq<char>> {
    match o {
        Some(s) => Some(s@),
        None => None,
    }
}

/// The first of an explicit value, an environment value and a default.
pub open spec fn pick(explicit: Option<Seq<char>>, env: Option<Seq<char>>, default: Seq<char>) -> Seq<
    char,
> {
    match explicit {
        Some(v) => v,
        None => match env {
            Some(v) => v,
            None => default,
        },
    }
}

/// What a builder holds: each setting given so far.
pub struct BuilderView {
    pub secret_path: Option<Seq<char>>,
    pub address: Option<Seq<char>>,
    pub port: Option<u16>,
    pub token: Option<Seq<char>>,
    pub protocol: Option<Seq<char>>,
}

/// Builder for a `Vault` client: settings given here win over the
/// environment, which wins over the defaults.
pub struct VaultBuilder {
    secret_path: Option<String>,
    address: Option<String>,
    port: Option<u16>,
    token: Option<String>,
    protocol: Option<String>,
}

impl View for VaultBuilder {
    type V = BuilderView;

    closed spec fn view(&self) -> BuilderView {
        BuilderView {
            secret_path: opt_view(self.secret_path),
            address: opt_view(self.address),
            port: self.port,
            token: opt_view(self.token),
            protocol: opt_view(self.protocol),
        }
    }
}

/// The error that resolving `b` against `env` ends in, if any: a missing
/// secret path, then a port text that is no port, then a missing token.
pub open spec fn resolve_error(b: BuilderView, env: EnvValues) -> Option<VaultError> {
    if b.secret_path.is_none() && env.secret_path.is_none() {
        Some(VaultError::MissingSecretPath)
    } else if b.port.is_none() && env.port.is_some() && port_of_text(env.port.unwrap()@).is_none() {
        Some(VaultError::InvalidPort(env.port.unwrap()))
    } else if b.token.is_none() && env.token.is_none() {
        Some(VaultError::MissingToken)
    } else {
        None
    }
}

/// The port that resolving `b` against `env` gives.
pub open spec fn resolved_port(b: BuilderView, env: EnvValues) -> u16 {
    match b.port {
        Some(p) => p,
        None => match env.port {
            Some(t) => port_of_text(t@).unwrap(),
            None => DEFAULT_PORT,
        },
    }
}

/// Resolves one text setting; `default` stands when neither value is given.
fn pick_text(explicit: &Option<String>, env: Option<String>, default: &str) -> (r: String)
    ensures
        r@ == pick(opt_view(*explicit), opt_view(env), default@),
{
    match explicit {
        Some(v) => v.clone(),
        None => match env {
            Some(v) => v,
            None => default.to_owned(),
        },
    }
}

impl VaultBuilder {
    pub fn address(&mut self, address: &str) -> (r: &mut Self)
        ensures
            r@ == (BuilderView { address: Some(address@), ..old(self)@ }),
            *final(self) == *final(r),
    {
        self.address = Some(address.to_owned());
        self
    }

    pub fn port(&mut self, port: u16) -> (r: &mut Self)
        ensures
            r@ == (BuilderView { port: Some(port), ..old(self)@ }),
            *final(self) == *final(r),
    {
        self.port = Some(port);
        self
    }

    pub fn token(&mut self, token: &str) -> (r: &mut Self)
        ensures
            r@ == (BuilderView { token: Some(token@), ..old(self)@ }),
            *final(self) == *final(r),
    {
        self.token = Some(token.to_owned());
        self
    }

    pub fn secret_path(&mut self, secret_path: &str) -> (r: &mut Self)
        ensures
            r@ == (BuilderView { secret_path: Some(secret_path@), ..old(self)@ }),
            *final(self) == *final(r),
    {
        self.secret_path = Some(secret_path.to_owned());
        self
    }

    /// Selects the secure protocol.
    pub fn https(&mut self) -> (r: &mut Self)
        ensures
            r@ == (BuilderView { protocol: Some(seq!['h', 't', 't', 'p', 's']), ..old(self)@ }),
            *final(self) == *final(r),
    {
        proof {
            reveal_strlit("https");
            assert("https"@ =~= seq!['h', 't', 't', 'p', 's']);
        }
        self.protocol = Some("https".to_owned());
        self
    }

    pub fn protocol(&mut self, proto: &str) -> (r: &mut Self)
        ensures
            r@ == (BuilderView { protocol: Some(proto@), ..old(self)@ }),
            *final(self) == *final(r),
    {
        self.protocol = Some(proto.to_owned());
        self
    }

    /// Resolves every setting: the value given to the builder, else the one
    /// from `env`, else the default (address `127.0.0.1`, port 8200, protocol
    /// `http`). The secret path and the token have no default.
    pub fn resolve(&self, env: EnvValues) -> (r: Result<Config, VaultError>)
        ensures
            r.is_err() <==> resolve_error(self@, env).is_some(),
            r.is_err() ==> resolve_error(self@, env) == Some(r->Err_0),
            r.is_ok() ==> r->Ok_0.config_path@ == pick(
                self@.secret_path,
                opt_view(env.secret_path),
                seq![],
            ),
            r.is_ok() ==> r->Ok_0.address@ == pick(
                self@.address,
                opt_view(env.address),
                default_address(),
            ),
            r.is_ok() ==> r->Ok_0.port == resolved_port(self@, env),
            r.is_ok() ==> r->Ok_0.token@ == pick(self@.token, opt_view(env.token), seq![]),
            r.is_ok() ==> r->Ok_0.protocol@ == pick(
                self@.protocol,
                opt_view(env.protocol),
                default_protocol(),
            ),
    {
        let ghost env0 = env;
        if self.secret_path.is_none() && env.secret_path.is_none() {
            return Err(VaultError::MissingSecretPath);
        }
        let port: u16 = match self.port {
            Some(p) => p,
            None => match env.port {
                Some(t) => match parse_port(t.as_str()) {
                    Some(p) => p,
                    None => {
                        return Err(VaultError::InvalidPort(t));
                    },
                },
                None => DEFAULT_PORT,
            },
        };
        if self.token.is_none() && env.token.is_none() {
            return Err(VaultError::MissingToken);
        }
        proof {
            reveal_strlit("");
            reveal_strlit("127.0.0.1");
            reveal_strlit("http");
        }
        let config_path = pick_text(&self.secret_path, env.secret_path, "");
        let address = pick_text(&self.address, env.address, "127.0.0.1");
        let token = pick_text(&self.token, env.token, "");
        let protocol = pick_text(&self.protocol, env.protocol, "http");
        Ok(Config::new(protocol, address, port, config_path, token))
    }
}

/// A client whose server answered its health check as a healthy, active node.
pub struct Vault {
    config: Config,
}

impl Vault {
    /// The settings the client was built with.
    pub closed spec fn settings(&self) -> Config {
        self.config
    }

    /// A builder with no setting given.
    pub fn new() -> (r: VaultBuilder)
        ensures
            r@ == (BuilderView {
                secret_path: None,
                address: None,
                port: None,
                token: None,
                protocol: None,
            }),
    {
        VaultBuilder { secret_path: None, address: None, port: None, token: None, protocol: None }
    }

    /// Finishes construction once the health endpoint of `config`'s server
    /// has answered with `health_status`: a client comes out only for a
    /// healthy answer; any other answer is the error it maps to.
    pub fn connect(config: Config, health_status: u16) -> (r: Result<Vault, VaultError>)
        ensures
            r.is_ok() <==> health_status == STATUS_OK,
            r.is_ok() ==> r->Ok_0.settings() == config,
            r.is_err() ==> status_error(health_status) == Some(r->Err_0),
    {
        match check_vault_error(health_status) {
            Ok(()) => Ok(Vault { config }),
            Err(e) => Err(e),
        }
    }

    /// The settings the client was built with.
    pub fn config(&self) -> (r: &Config)
        ensures
            *r == self.settings(),
    {
        &self.config
    }

    /// Decides on the answer to a secret request: success lets the body be
    /// read; any other status is the error it maps to, and the body is left
    /// unread.
    pub fn secret_status(&self, status: u16) -> (r: Result<(), VaultError>)
        ensures
            r.is_ok() <==> status == STATUS_OK,
            r.is_err() ==> status_error(status) == Some(r->Err_0),
    {
        check_vault_error(status)
    }
}

/// A text with a character that is neither a digit nor a leading `+` names
/// no port.
pub proof fn lemma_non_numeric_port(t: Seq<char>, i: int)
    requires
        0 <= i < t.len(),
        !is_digit(t[i]),
        !(i == 0 && t[i] == '+'),
    ensures
        port_of_text(t).is_none(),
{
    let d = port_digits(t);
    if t.len() > 0 && t[0] == '+' {
        assert(!is_digit(d[i - 1]));
    } else {
        assert(!is_digit(d[i]));
    }
}

/// Resolution fails with a settings error when no token is given either way,
/// or when the port comes from the environment as a text that is not a
/// number; and with nothing given, the address and protocol are the
/// loopback address and plain `http`.
pub proof fn lemma_resolution_rules(b: BuilderView, env: EnvValues)
    ensures
        b.token.is_none() && env.token.is_none() ==> resolve_error(b, env).is_some()
            && resolve_error(b, env).unwrap().is_config_error(),
        b.port.is_none() && env.port.is_some() && (exists|i: int|
            0 <= i < env.port.unwrap()@.len() && !is_digit(env.port.unwrap()@[i]) && !(i == 0
                && env.port.unwrap()@[i] == '+')) ==> resolve_error(b, env).is_some()
            && resolve_error(b, env).unwrap().is_config_error(),
        b.address.is_none() && env.address.is_none() ==> pick(
            b.address,
            opt_view(env.address),
            default_address(),
        ) == default_address(),
        b.protocol.is_none() && env.protocol.is_none() ==> pick(
            b.protocol,
            opt_view(env.protocol),
            default_protocol(),
        ) == default_protocol(),
        b.port.is_none() && env.port.is_none() ==> resolved_port(b, env) == DEFAULT_PORT,
{
    if b.port.is_none() && env.port.is_some() {
        let t = env.port.unwrap()@;
        if exists|i: int| 0 <= i < t.len() && !is_digit(t[i]) && !(i == 0 && t[i] == '+') {
            let i = choose|i: int| 0 <= i < t.len() && !is_digit(t[i]) && !(i == 0 && t[i] == '+');
            lemma_non_numeric_port(t, i);
        }
    }
}

/// Two secret requests made with the same settings are the same request,
/// and the same envelope in answer gives the same payload.
pub proof fn lemma_get_secret_repeatable<T>(
    c1: Config,
    c2: Config,
    e1: VaultSchemaV1<T>,
    e2: VaultSchemaV1<T>,
)
    requires
        c1.protocol@ == c2.protocol@,
        c1.address@ == c2.address@,
        c1.port == c2.port,
        c1.config_path@ == c2.config_path@,
        c1.token@ == c2.token@,
        e1 == e2,
    ensures
        c1.secret_url_spec() == c2.secret_url_spec(),
        e1.data == e2.data,
{
}

} // verus!
