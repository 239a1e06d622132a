//! Resolved connection settings, and the requests they lead to.
use vstd::prelude::*;
use vstd::string::StringExecFns;

verus! {

/// Connection settings for one Vault server, all of them resolved.
pub struct Config {
    pub address: String,
    pub port: u16,
    pub config_path: String,
    pub token: String,
    pub protocol: String,
}

/// The character for a decimal digit.
pub open spec fn digit_char(d: nat) -> char {
    ((d % 10) + ('0' as nat)) as char
}

/// The decimal text of a natural number, without leading zeros.
pub open spec fn decimal(n: nat) -> Seq<char>
    decreases n,
{
    if n < 10 {
        seq![digit_char(n)]
    } else {
        decimal(n / 10).push(digit_char(n % 10))
    }
}

/// `{protocol}://{address}:{port}/v1/`: the part every request URL starts with.
pub open spec fn api_root(protocol: Seq<char>, address: Seq<char>, port: u16) -> Seq<char> {
    protocol + seq![':', '/', '/'] + address + seq![':'] + decimal(port as nat) + seq![
        '/',
        'v',
        '1',
        '/',
    ]
}

/// The path of the health endpoint below the API root.
pub open spec fn health_path() -> Seq<char> {
    seq!['s', 'y', 's', '/', 'h', 'e', 'a', 'l', 't', 'h']
}

pub open spec fn content_type_name() -> Seq<char> {
    seq!['c', 'o', 'n', 't', 'e', 'n', 't', '-', 't', 'y', 'p', 'e']
}

pub open spec fn content_type_json() -> Seq<char> {
    seq!['a', 'p', 'p', 'l', 'i', 'c', 'a', 't', 'i', 'o', 'n', '/', 'j', 's', 'o', 'n']
}

pub open spec fn token_header_name() -> Seq<char> {
    seq!['X', '-', 'V', 'a', 'u', 'l', 't', '-', 'T', 'o', 'k', 'e', 'n']
}

/// The one-character text of the decimal digit `d`.
fn digit_text(d: u16) -> (r: &'static str)
    requires
        d < 10,
    ensures
        r@ == seq![digit_char(d as nat)],
{
    proof {
        reveal_strlit("0");
        reveal_strlit("1");
        reveal_strlit("2");
        reveal_strlit("3");
        reveal_strlit("4");
        reveal_strlit("5");
        reveal_strlit("6");
        reveal_strlit("7");
        reveal_strlit("8");
        reveal_strlit("9");
    }
    match d {
        0 => "0",
        1 => "1",
        2 => "2",
        3 => "3",
        4 => "4",
        5 => "5",
        6 => "6",
        7 => "7",
        8 => "8",
        _ => "9",
    }
}

/// Appends the decimal text of `n` to `s`.
fn push_decimal(s: &mut String, n: u16)
    ensures
        final(s)@ == old(s)@ + decimal(n as nat),
    decreases n,
{
    if n >= 10 {
        push_decimal(s, n / 10);
    }
    s.append(digit_text(n % 10));
    assert(decimal(n as nat) == if n < 10 {
        seq![digit_char(n as nat)]
    } else {
        decimal((n / 10) as nat).push(digit_char((n % 10) as nat))
    });
    assert(digit_char(n as nat) == digit_char((n % 10) as nat));
}

/// Builds `{protocol}://{address}:{port}/v1/`.
fn push_api_root(s: &mut String, protocol: &String, address: &String, port: u16)
    ensures
        final(s)@ == old(s)@ + api_root(protocol@, address@, port),
{
    proof {
        reveal_strlit("://");
        reveal_strlit(":");
        reveal_strlit("/v1/");
    }
    s.append(protocol.as_str());
    s.append("://");
    s.append(address.as_str());
    s.append(":");
    push_decimal(s, port);
    s.append("/v1/");
    assert(final(s)@ =~= old(s)@ + api_root(protocol@, address@, port));
}

impl Config {
    /// The URL of the health endpoint of the server these settings name.
    pub open spec fn health_url_spec(&self) -> Seq<char> {
        api_root(self.protocol@, self.address@, self.port) + health_path()
    }

    /// The URL of the configured secret.
    pub open spec fn secret_url_spec(&self) -> Seq<char> {
        api_root(self.protocol@, self.address@, self.port) + self.config_path@
    }

    pub fn new(
        protocol: String,
        address: String,
        port: u16,
        config_path: String,
        token: String,
    ) -> (r: Self)
        ensures
            r.protocol == protocol,
            r.address == address,
            r.port == port,
            r.config_path == config_path,
            r.token == token,
    {
        Self { address, port, config_path, token, protocol }
    }
    /// The URL of the health endpoint: `{protocol}://{address}:{port}/v1/sys/health`.
    pub fn health_url(&self) -> (r: String)
        ensures
            r@ == self.health_url_spec(),
    {
        let mut s = String::new();
        push_api_root(&mut s, &self.protocol, &self.address, self.port);
        proof {
            reveal_strlit("sys/health");
        }
        s.append("sys/health");
        assert(s@ =~= self.health_url_spec());
        s
    }

    /// The URL of the secret: `{protocol}://{address}:{port}/v1/{config_path}`.
    pub fn secret_url(&self) -> (r: String)
        ensures
            r@ == self.secret_url_spec(),
    {
        let mut s = String::new();
        push_api_root(&mut s, &self.protocol, &self.address, self.port);
        s.append(self.config_path.as_str());
        assert(s@ =~= self.secret_url_spec());
        s
    }
    /// The headers every request carries: `content-type: application/json`
    /// and `X-Vault-Token: {token}`, in that order.
    pub fn request_headers(&self) -> (r: Vec<(String, String)>)
        ensures
            r@.len() == 2,
            r@[0].0@ == content_type_name(),
            r@[0].1@ == content_type_json(),
            r@[1].0@ == token_header_name(),
            r@[1].1@ == self.token@,
    {
        proof {
            reveal_strlit("content-type");
            reveal_strlit("application/json");
            reveal_strlit("X-Vault-Token");
            assert("content-type"@ =~= content_type_name());
            assert("application/json"@ =~= content_type_json());
            assert("X-Vault-Token"@ =~= token_header_name());
        }
        let mut r: Vec<(String, String)> = Vec::new();
        r.push(("content-type".to_owned(), "application/json".to_owned()));
        r.push(("X-Vault-Token".to_owned(), self.token.clone()));
        r
    }
}

} // verus!
