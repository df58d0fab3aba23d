//! Setting up the tunnel to the remote server: the address the tunnel serves
//! under, and what is done with each message it receives.
use vstd::prelude::*;

use crate::text::{chars_of, decimal, push_decimal, push_str, str_eq, string_from_chars};
use crate::trusted::{parse_url, url_parts};

verus! {

#[verifier::external_type_specification]
#[verifier::external_body]
pub struct ExIoError(std::io::Error);

/// Why the tunnel could not be set up.
#[derive(Debug)]
pub enum SetupTunnelError {
    IO(std::io::Error),
}

/// The HTTP address of the tunnel's host: `https` for a `wss` URL, `http`
/// otherwise, the host, and the port where the URL names one.
pub open spec fn tunnel_host(scheme: Seq<char>, host: Seq<char>, port: Option<u16>) -> Seq<char> {
    (if scheme == "wss"@ { "https"@ } else { "http"@ }) + "://"@ + host + match port {
        Some(p) => seq![':'] + decimal(p as nat),
        None => Seq::<char>::empty(),
    }
}

/// The tunnel's host is `https://` for a `wss` URL and `http://` for any
/// other, then the URL's host; a port that the URL names follows after `:`,
/// for every scheme, so a host with a port is the host without it and then
/// `:` and the port's decimal digits.
pub proof fn lemma_tunnel_host_names_port(scheme: Seq<char>, host: Seq<char>, port: Option<u16>)
    ensures
        tunnel_host(scheme, host, None) == (if scheme == "wss"@ { "https"@ } else { "http"@ }) + "://"@ + host,
        port matches Some(p) ==> tunnel_host(scheme, host, port) == tunnel_host(scheme, host, None) + seq![':']
            + decimal(p as nat),
        port matches Some(p) ==> tunnel_host(scheme, host, port).len() == tunnel_host(scheme, host, None).len() + 1
            + decimal(p as nat).len(),
{
    let base = (if scheme == "wss"@ { "https"@ } else { "http"@ }) + "://"@ + host;
    assert(tunnel_host(scheme, host, None) =~= base);
    match port {
        Some(p) => {
            assert(tunnel_host(scheme, host, port) =~= base + (seq![':'] + decimal(p as nat)));
            assert(base + (seq![':'] + decimal(p as nat)) =~= base + seq![':'] + decimal(p as nat));
        },
        None => {},
    }
}

/// Builds `tunnel_host(scheme, host, port)`.
pub fn tunnel_host_of(scheme: &str, host: &str, port: Option<u16>) -> (r: String)
    ensures
        r@ == tunnel_host(scheme@, host@, port),
        port is None ==> r@ == (if scheme@ == "wss"@ { "https"@ } else { "http"@ }) + "://"@ + host@,
        port matches Some(p) ==> r@ == tunnel_host(scheme@, host@, None) + seq![':'] + decimal(p as nat),
{
    proof {
        lemma_tunnel_host_names_port(scheme@, host@, port);
    }
    let mut out: Vec<char> = Vec::new();
    if str_eq(scheme, "wss") {
        push_str(&mut out, "https");
    } else {
        push_str(&mut out, "http");
    }
    push_str(&mut out, "://");
    push_str(&mut out, host);
    match port {
        Some(p) => {
            out.push(':');
            push_decimal(&mut out, p as u64);
        },
        None => {},
    }
    string_from_chars(&out)
}

/// What to do about the tunnel.
#[derive(Debug, Clone, PartialEq)]
pub enum TunnelPlan {
    /// No tunnel: `WS_HOST` is unset or empty.
    Disabled,
    /// Connect to `ws_url`; the tunnel serves under `host`.
    Connect { host: String, ws_url: String },
}

/// The plan for a `WS_HOST` value whose URL has host `host`, scheme and port.
pub open spec fn planned(ws_host: Option<Seq<char>>, plan: Option<TunnelPlan>) -> bool {
    match ws_host {
        None => plan == Some(TunnelPlan::Disabled),
        Some(u) => if u.len() == 0 {
            plan == Some(TunnelPlan::Disabled)
        } else {
            match url_parts(u) {
                Some((scheme, Some(host), port)) => plan matches Some(TunnelPlan::Connect { host: h, ws_url: w })
                    && h@ == tunnel_host(scheme, host, port) && w@ == u,
                _ => plan is None,
            }
        },
    }
}

/// Decides about the tunnel from the value of `WS_HOST`: none when it is
/// unset or empty, else a connection to it. `None` where the value is not a
/// URL with a host, which is an invalid `WS_HOST`.
pub fn plan_tunnel(ws_host: Option<&str>) -> (r: Option<TunnelPlan>)
    ensures
        planned(
            match ws_host {
                Some(u) => Some(u@),
                None => None::<Seq<char>>,
            },
            r,
        ),
{
    let url = match ws_host {
        Some(u) => u,
        None => {
            return Some(TunnelPlan::Disabled);
        },
    };
    let cs = chars_of(url);
    if cs.len() == 0 {
        return Some(TunnelPlan::Disabled);
    }
    match parse_url(url) {
        Some(parts) => match &parts.host {
            Some(host) => {
                let h = tunnel_host_of(parts.scheme.as_str(), host.as_str(), parts.port);
                Some(TunnelPlan::Connect { host: h, ws_url: url.to_owned() })
            },
            None => None,
        },
        None => None,
    }
}

/// A message received through the tunnel.
#[derive(Debug, Clone, PartialEq)]
pub enum TunnelMessage {
    Text(String),
    Binary(Vec<u8>),
    Ping(Vec<u8>),
    Pong(Vec<u8>),
    Close,
    Frame(Vec<u8>),
}

/// What to do with a message received through the tunnel.
#[derive(Debug, Clone, PartialEq)]
pub enum TunnelMessageAction {
    /// Parse the text as a request and serve it.
    HandleRequest(String),
    /// Nothing.
    Ignore,
    /// The connection was closed.
    Closed,
}

/// What to do with a message: a text message holds a request, pings and
/// pongs are ignored, a close is noted. Binary messages and raw frames are
/// not handled at all, and are not accepted here.
pub fn tunnel_message_action(message: TunnelMessage) -> (r: TunnelMessageAction)
    requires
        !(message is Binary),
        !(message is Frame),
    ensures
        match message {
            TunnelMessage::Text(t) => r == TunnelMessageAction::HandleRequest(t),
            TunnelMessage::Close => r == TunnelMessageAction::Closed,
            _ => r == TunnelMessageAction::Ignore,
        },
{
    match message {
        TunnelMessage::Text(t) => TunnelMessageAction::HandleRequest(t),
        TunnelMessage::Close => TunnelMessageAction::Closed,
        _ => TunnelMessageAction::Ignore,
    }
}

} // verus!
