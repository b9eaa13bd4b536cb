//! Network targets: hosts, ports and URLs.
//!
//! A list entry is a bare host or a host, a colon and a port in decimal.
//! Comparison is exact: no wildcard, no suffix match, no case folding.

use vstd::prelude::*;
use vstd::string::*;
use crate::error::{ErrorKind, PermissionError};
use crate::unary::{keys_of, list_contains};

verus! {

/// The character of a decimal digit.
pub open spec fn digit(d: nat) -> char {
    if d == 0 {
        '0'
    } else if d == 1 {
        '1'
    } else if d == 2 {
        '2'
    } else if d == 3 {
        '3'
    } else if d == 4 {
        '4'
    } else if d == 5 {
        '5'
    } else if d == 6 {
        '6'
    } else if d == 7 {
        '7'
    } else if d == 8 {
        '8'
    } else {
        '9'
    }
}

/// A number in decimal, without leading zeros.
pub open spec fn decimal(n: nat) -> Seq<char>
    decreases n,
{
    if n < 10 {
        seq![digit(n)]
    } else {
        decimal(n / 10).push(digit(n % 10))
    }
}

/// The list entry for a host with a port.
pub open spec fn host_port_text(host: Seq<char>, port: u16) -> Seq<char> {
    host + seq![':'] + decimal(port as nat)
}

/// Whether a list names the host, or the host with this port.
pub open spec fn host_hit(list: Set<Seq<char>>, host: Seq<char>, port: Option<u16>) -> bool {
    list.contains(host) || (port is Some && list.contains(host_port_text(host, port->0)))
}

fn digit_str(d: u16) -> (text: &'static str)
    requires
        d < 10,
    ensures
        text@ == seq![digit(d as nat)],
{
    proof {
        reveal_strlit("0");
        reveal_strlit("1");
        reveal_strlit("2");
        reveal_strlit("3");
        reveal_strlit("4");
        reveal_strlit("5");
        reveal_strlit("6");
        reveal_strlit("7");
        reveal_strlit("8");
        reveal_strlit("9");
    }
    let text = if d == 0 {
        "0"
    } else if d == 1 {
        "1"
    } else if d == 2 {
        "2"
    } else if d == 3 {
        "3"
    } else if d == 4 {
        "4"
    } else if d == 5 {
        "5"
    } else if d == 6 {
        "6"
    } else if d == 7 {
        "7"
    } else if d == 8 {
        "8"
    } else {
        "9"
    };
    assert(text@ =~= seq![digit(d as nat)]);
    text
}

/// A port number in decimal.
pub fn port_text(port: u16) -> (text: String)
    ensures
        text@ == decimal(port as nat),
    decreases port,
{
    if port < 10 {
        String::from_str(digit_str(port))
    } else {
        let mut text = port_text(port / 10);
        text.append(digit_str(port % 10));
        assert(text@ =~= decimal(port as nat));
        text
    }
}

/// The list entry for `host` with `port`.
pub fn host_port_key(host: &str, port: u16) -> (key: String)
    ensures
        key@ == host_port_text(host@, port),
{
    let mut key = String::from_str(host);
    key.append(":");
    let digits = port_text(port);
    key.append(digits.as_str());
    proof {
        reveal_strlit(":");
        assert(":"@ =~= seq![':']);
    }
    key
}

/// Whether `allowlist` names `host`, or `host` with `port`.
pub fn check_host_and_port_list(host: &str, port: Option<u16>, allowlist: &Vec<String>) -> (hit:
    bool)
    ensures
        hit == host_hit(keys_of(allowlist@), host@, port),
{
    let bare = String::from_str(host);
    if list_contains(allowlist, &bare) {
        return true;
    }
    match port {
        Some(number) => {
            let key = host_port_key(host, number);
            list_contains(allowlist, &key)
        },
        None => false,
    }
}

/// What the engine reads of a URL.
pub struct UrlParts {
    /// The URL as it is written out again.
    pub text: Seq<char>,
    /// The host, where the URL has one.
    pub host: Option<Seq<char>>,
    /// The port that the URL gives, else the known default of its scheme.
    pub port: Option<u16>,
}

/// A parsed URL, as plain values.
#[derive(Clone, Debug)]
pub struct NetUrl {
    pub text: String,
    pub host: Option<String>,
    pub port: Option<u16>,
}

impl View for NetUrl {
    type V = UrlParts;

    open spec fn view(&self) -> UrlParts {
        UrlParts {
            text: self.text@,
            host: match self.host {
                Some(h) => Some(h@),
                None => None,
            },
            port: self.port,
        }
    }
}

/// The outcome of a parse as plain values.
pub open spec fn outcome_view(res: Result<NetUrl, String>) -> Result<UrlParts, Seq<char>> {
    match res {
        Ok(u) => Ok(u@),
        Err(reason) => Err(reason@),
    }
}

/// What parsing a text as an absolute URL gives: its parts, or the reason
/// why it is no URL.
pub uninterp spec fn parsed_url(text: Seq<char>) -> Result<UrlParts, Seq<char>>;

/// Parses with `url::Url::parse` and reads the result with `Url::as_str`,
/// `Url::host_str` and `Url::port_or_known_default`; a failure is rendered
/// with the `Display` of `url::ParseError`. The contract claims only that
/// the outcome is the one named `parsed_url` for this text: the same text
/// always parses alike.
#[verifier::external_body]
fn parse_url(text: &str) -> (res: Result<NetUrl, String>)
    ensures
        outcome_view(res) == parsed_url(text@),
{
    match url::Url::parse(text) {
        Ok(u) => Ok(
            NetUrl {
                text: u.as_str().to_string(),
                host: u.host_str().map(str::to_string),
                port: u.port_or_known_default(),
            },
        ),
        Err(e) => Err(e.to_string()),
    }
}

impl NetUrl {
    /// Parse an absolute URL.
    pub fn parse(text: &str) -> (res: Result<NetUrl, PermissionError>)
        ensures
            res is Ok <==> parsed_url(text@) is Ok,
            res matches Ok(u) ==> parsed_url(text@)->Ok_0 == u@,
            res matches Err(e) ==> e.kind == ErrorKind::UriError && parsed_url(text@)->Err_0
                == e.message@,
    {
        match parse_url(text) {
            Ok(u) => Ok(u),
            Err(reason) => Err(PermissionError { kind: ErrorKind::UriError, message: reason }),
        }
    }
}

} // verus!
