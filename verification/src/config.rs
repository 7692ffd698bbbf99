//! Process configuration: the bind address of the front-end, parsed from
//! environment-variable values that the surrounding process hands in as
//! plain strings.

use vstd::prelude::*;
use crate::text::dec_value;
use crate::text::is_dec_string;
use crate::text::parse_decimal;
use crate::text::split_chars;
use crate::text::split_on;

verus! {

/// Shared state of the HTTP front-end, empty by design.
#[derive(Clone, Copy, Debug)]
pub struct AppState {}

/// An IPv4 host address, one octet per field.
#[derive(Clone, Copy, Debug, PartialEq, Eq, Structural)]
pub struct HostAddr {
    pub a: u8,
    pub b: u8,
    pub c: u8,
    pub d: u8,
}

/// Where the front-end listens.
#[derive(Clone, Copy, Debug, PartialEq, Eq, Structural)]
pub struct Server {
    pub host: HostAddr,
    pub port: u16,
}

/// The whole process configuration.
#[derive(Clone, Copy, Debug, PartialEq, Eq, Structural)]
pub struct Config {
    pub server: Server,
}

/// An environment variable whose value did not parse.
#[derive(Clone, Debug)]
pub struct ParseEnvError {
    /// Name of the variable.
    pub var: &'static str,
    /// Name of the type the value was expected to parse into.
    pub expected: &'static str,
    /// The value that did not parse.
    pub value: String,
}

impl ParseEnvError {
    /// The error text.
    pub fn message(&self) -> (m: String)
        ensures
            m@ == "failed to parse environment variable `"@ + self.var@ + "` (value: `"@
                + self.value@ + "`) into `"@ + self.expected@ + "`"@,
    {
        let mut m = String::from_str("failed to parse environment variable `");
        m.append(self.var);
        m.append("` (value: `");
        m.append(self.value.as_str());
        m.append("`) into `");
        m.append(self.expected);
        m.append("`");
        proof {
            assert(m@ =~= "failed to parse environment variable `"@ + self.var@ + "` (value: `"@
                + self.value@ + "`) into `"@ + self.expected@ + "`"@);
        }
        m
    }
}

/// A dotted-quad IPv4 address: four decimal segments, each at most 255.
pub open spec fn ipv4_ok(s: Seq<char>) -> bool {
    let segs = split_chars(s, '.');
    segs.len() == 4 && forall|k: int|
        0 <= k < 4 ==> is_dec_string(#[trigger] segs[k]) && dec_value(segs[k]) <= 255
}

/// The `k`-th octet of a dotted quad.
pub open spec fn ipv4_octet(s: Seq<char>, k: int) -> nat {
    dec_value(split_chars(s, '.')[k])
}

/// A decimal port number that fits sixteen bits.
pub open spec fn port_ok(s: Seq<char>) -> bool {
    is_dec_string(s) && dec_value(s) <= 65535
}

/// Parses a dotted-quad IPv4 address.
pub fn parse_ipv4(s: &str) -> (r: Option<HostAddr>)
    ensures
        r is Some <==> ipv4_ok(s@),
        r is Some ==> r->0.a as nat == ipv4_octet(s@, 0) && r->0.b as nat == ipv4_octet(s@, 1)
            && r->0.c as nat == ipv4_octet(s@, 2) && r->0.d as nat == ipv4_octet(s@, 3),
{
    let segs = split_on(s, '.');
    if segs.len() != 4 {
        return None;
    }
    proof {
        assert forall|k: int| 0 <= k < 4 implies segs.deep_view()[k] == segs@[k]@ by {}
    }
    let a = match parse_decimal(segs[0].as_str(), 255) {
        Some(v) => v,
        None => {
            assert(!(is_dec_string(split_chars(s@, '.')[0]) && dec_value(split_chars(s@, '.')[0])
                <= 255));
            return None;
        },
    };
    let b = match parse_decimal(segs[1].as_str(), 255) {
        Some(v) => v,
        None => {
            assert(!(is_dec_string(split_chars(s@, '.')[1]) && dec_value(split_chars(s@, '.')[1])
                <= 255));
            return None;
        },
    };
    let c = match parse_decimal(segs[2].as_str(), 255) {
        Some(v) => v,
        None => {
            assert(!(is_dec_string(split_chars(s@, '.')[2]) && dec_value(split_chars(s@, '.')[2])
                <= 255));
            return None;
        },
    };
    let d = match parse_decimal(segs[3].as_str(), 255) {
        Some(v) => v,
        None => {
            assert(!(is_dec_string(split_chars(s@, '.')[3]) && dec_value(split_chars(s@, '.')[3])
                <= 255));
            return None;
        },
    };
    Some(HostAddr { a: a as u8, b: b as u8, c: c as u8, d: d as u8 })
}

/// Parses a port number.
pub fn parse_port(s: &str) -> (r: Option<u16>)
    ensures
        r is Some <==> port_ok(s@),
        r is Some ==> r->0 as nat == dec_value(s@),
{
    match parse_decimal(s, 65535) {
        Some(v) => Some(v as u16),
        None => None,
    }
}

/// The default bind host, every interface.
pub fn default_host() -> (h: HostAddr)
    ensures
        h == (HostAddr { a: 0, b: 0, c: 0, d: 0 }),
{
    HostAddr { a: 0, b: 0, c: 0, d: 0 }
}

impl Server {
    /// Builds the listener configuration from the raw values of the two
    /// environment variables, absent values falling back to every
    /// interface and the default port.
    pub fn from_env_values(host: Option<String>, port: Option<String>) -> (r: Result<
        Server,
        ParseEnvError,
    >)
        ensures
            r is Ok <==> (host is Some ==> ipv4_ok(host->0@)) && (port is Some ==> port_ok(
                port->0@,
            )),
            r is Ok ==> ({
                let server = r->Ok_0;
                &&& (host is None ==> server.host == (HostAddr { a: 0, b: 0, c: 0, d: 0 }))
                &&& (host is Some ==> server.host.a as nat == ipv4_octet(host->0@, 0)
                    && server.host.b as nat == ipv4_octet(host->0@, 1) && server.host.c as nat
                    == ipv4_octet(host->0@, 2) && server.host.d as nat == ipv4_octet(host->0@, 3))
                &&& (port is None ==> server.port == 3000u16)
                &&& (port is Some ==> server.port as nat == dec_value(port->0@))
            }),
            r is Err && host is Some && !ipv4_ok(host->0@) ==> r->Err_0.var@
                == "FERRISLAND_SERVER_HOST"@ && r->Err_0.value@ == host->0@,
            r is Err && (host is Some ==> ipv4_ok(host->0@)) ==> r->Err_0.var@
                == "FERRISLAND_SERVER_PORT"@ && port is Some && r->Err_0.value@ == port->0@,
    {
        let resolved_host = match host {
            None => default_host(),
            Some(value) => match parse_ipv4(value.as_str()) {
                Some(h) => h,
                None => {
                    return Err(
                        ParseEnvError {
                            var: "FERRISLAND_SERVER_HOST",
                            expected: "IpAddr",
                            value,
                        },
                    );
                },
            },
        };
        let resolved_port = match port {
            None => 3000u16,
            Some(value) => match parse_port(value.as_str()) {
                Some(p) => p,
                None => {
                    return Err(
                        ParseEnvError { var: "FERRISLAND_SERVER_PORT", expected: "u16", value },
                    );
                },
            },
        };
        Ok(Server { host: resolved_host, port: resolved_port })
    }
}

impl Config {
    /// Builds the whole configuration from the raw environment values.
    pub fn from_env_values(host: Option<String>, port: Option<String>) -> (r: Result<
        Config,
        ParseEnvError,
    >)
        ensures
            r is Ok <==> (host is Some ==> ipv4_ok(host->0@)) && (port is Some ==> port_ok(
                port->0@,
            )),
            r is Ok ==> ({
                let c = r->Ok_0;
                &&& (host is None ==> c.server.host == (HostAddr { a: 0, b: 0, c: 0, d: 0 }))
                &&& (host is Some ==> c.server.host.a as nat == ipv4_octet(host->0@, 0)
                    && c.server.host.b as nat == ipv4_octet(host->0@, 1) && c.server.host.c as nat
                    == ipv4_octet(host->0@, 2) && c.server.host.d as nat == ipv4_octet(
                    host->0@,
                    3,
                ))
                &&& (port is None ==> c.server.port == 3000u16)
                &&& (port is Some ==> c.server.port as nat == dec_value(port->0@))
            }),
    {
        match Server::from_env_values(host, port) {
            Ok(server) => Ok(Config { server }),
            Err(e) => Err(e),
        }
    }
}

} // verus!
