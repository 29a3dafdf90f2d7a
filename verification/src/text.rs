//! Decimal rendering and the text of listening addresses.
use vstd::prelude::*;

verus! {

/// The text of one decimal digit.
pub open spec fn digit_text(d: nat) -> Seq<char> {
    if d == 0 {
        "0"@
    } else if d == 1 {
        "1"@
    } else if d == 2 {
        "2"@
    } else if d == 3 {
        "3"@
    } else if d == 4 {
        "4"@
    } else if d == 5 {
        "5"@
    } else if d == 6 {
        "6"@
    } else if d == 7 {
        "7"@
    } else if d == 8 {
        "8"@
    } else {
        "9"@
    }
}

/// The decimal text of a natural number, most significant digit first, with no leading zero.
pub open spec fn decimal_text(n: nat) -> Seq<char>
    decreases n,
{
    if n < 10 {
        digit_text(n)
    } else {
        decimal_text(n / 10) + digit_text(n % 10)
    }
}

fn digit_str(d: u32) -> (s: &'static str)
    requires
        d < 10,
    ensures
        s@ == digit_text(d as nat),
{
    if d == 0 {
        "0"
    } else if d == 1 {
        "1"
    } else if d == 2 {
        "2"
    } else if d == 3 {
        "3"
    } else if d == 4 {
        "4"
    } else if d == 5 {
        "5"
    } else if d == 6 {
        "6"
    } else if d == 7 {
        "7"
    } else if d == 8 {
        "8"
    } else {
        "9"
    }
}

/// Renders `n` in decimal, as `{}` formats an unsigned integer.
pub fn decimal_string(n: u32) -> (s: String)
    ensures
        s@ == decimal_text(n as nat),
        crate::laws::numeral_value(s@) == n,
        forall|i: int| 0 <= i < s@.len() ==> crate::laws::is_decimal_digit(#[trigger] s@[i]),
    decreases n,
{
    proof {
        crate::laws::law_decimal_text(n as nat);
    }
    if n < 10 {
        digit_str(n).to_owned()
    } else {
        let mut s = decimal_string(n / 10);
        s.append(digit_str(n % 10));
        s
    }
}

/// The address a node listens on: the one given, else every IPv4 interface.
pub open spec fn resolved_address(address: Option<&str>) -> Seq<char> {
    match address {
        Some(a) => a@,
        None => "0.0.0.0"@,
    }
}

/// The port a node listens on: the one given, else 0 (any port the system picks).
pub open spec fn resolved_port(port: Option<u32>) -> nat {
    match port {
        Some(p) => p as nat,
        None => 0,
    }
}

/// The multiaddress of a TCP listener on `addr` and `port`.
pub open spec fn tcp_listen_text(addr: Seq<char>, port: nat) -> Seq<char> {
    "/ip4/"@ + addr + "/tcp/"@ + decimal_text(port)
}

/// The multiaddress of a QUIC (over UDP) listener on `addr` and `port`.
pub open spec fn udp_listen_text(addr: Seq<char>, port: nat) -> Seq<char> {
    "/ip4/"@ + addr + "/udp/"@ + decimal_text(port) + "/quic-v1"@
}

/// The listeners a node opens, in order: TCP when asked for, then QUIC when asked for;
/// when neither transport is asked for, TCP alone.
pub open spec fn listen_plan(addr: Seq<char>, port: nat, tcp: bool, udp: bool) -> Seq<Seq<char>> {
    if tcp && udp {
        seq![tcp_listen_text(addr, port), udp_listen_text(addr, port)]
    } else if udp {
        seq![udp_listen_text(addr, port)]
    } else {
        seq![tcp_listen_text(addr, port)]
    }
}

fn tcp_listen_string(addr: &str, port: u32) -> (s: String)
    ensures
        s@ == tcp_listen_text(addr@, port as nat),
{
    let mut s = "/ip4/".to_owned();
    s.append(addr);
    s.append("/tcp/");
    let digits = decimal_string(port);
    s.append(digits.as_str());
    s
}

fn udp_listen_string(addr: &str, port: u32) -> (s: String)
    ensures
        s@ == udp_listen_text(addr@, port as nat),
{
    let mut s = "/ip4/".to_owned();
    s.append(addr);
    s.append("/udp/");
    let digits = decimal_string(port);
    s.append(digits.as_str());
    s.append("/quic-v1");
    s
}

/// The multiaddresses a node listens on, in the order it opens them, for the optional
/// address and port it was given and the transports it was asked for.
pub fn listen_addresses(address: Option<&str>, port: Option<u32>, tcp: bool, udp: bool) -> (r: Vec<
    String,
>)
    ensures
        r.deep_view() == listen_plan(resolved_address(address), resolved_port(port), tcp, udp),
{
    let addr: &str = match address {
        Some(val) => val,
        None => "0.0.0.0",
    };
    let po: u32 = match port {
        Some(val) => val,
        None => 0,
    };
    let mut r: Vec<String> = Vec::new();
    if tcp {
        r.push(tcp_listen_string(addr, po));
    }
    if udp {
        r.push(udp_listen_string(addr, po));
    } else if !tcp {
        r.push(tcp_listen_string(addr, po));
    }
    proof {
        assert(r.deep_view() =~= listen_plan(resolved_address(address), resolved_port(port), tcp, udp));
    }
    r
}

} // verus!
