//! Where the service listens, and the line it prints when it starts.

use vstd::prelude::*;
use vstd::string::*;

verus! {

/// An IPv4 socket address: four octets and a port.
#[derive(Clone, Copy, Debug)]
pub struct ListenAddr {
    pub ip: [u8; 4],
    pub port: u16,
}

/// The decimal digit for `d`, for `0 <= d < 10`.
pub open spec fn digit_char(d: nat) -> char {
    seq!['0', '1', '2', '3', '4', '5', '6', '7', '8', '9'][d as int]
}

/// `n` in decimal, without leading zeros.
pub open spec fn decimal(n: nat) -> Seq<char>
    decreases n,
{
    if n < 10 {
        seq![digit_char(n)]
    } else {
        decimal(n / 10) + seq![digit_char(n % 10)]
    }
}

/// An IPv4 address and port as `a.b.c.d:port`.
pub open spec fn addr_text(ip: Seq<u8>, port: u16) -> Seq<char> {
    decimal(ip[0] as nat) + seq!['.'] + decimal(ip[1] as nat) + seq!['.'] + decimal(ip[2] as nat)
        + seq!['.'] + decimal(ip[3] as nat) + seq![':'] + decimal(port as nat)
}

/// The line printed once the service listens on `addr`.
pub open spec fn startup_text(addr: ListenAddr) -> Seq<char> {
    "Rust backend listening on http://"@ + addr_text(addr.ip@, addr.port)
}

/// The service listens on the loopback address, port 8000.
pub fn listen_addr() -> (r: ListenAddr)
    ensures
        r.ip@ == seq![127u8, 0u8, 0u8, 1u8],
        r.port == 8000,
{
    let r = ListenAddr { ip: [127, 0, 0, 1], port: 8000 };
    assert(r.ip@ =~= seq![127u8, 0u8, 0u8, 1u8]);
    r
}

fn digit_str(d: u16) -> (r: &'static str)
    requires
        d < 10,
    ensures
        r@ == seq![digit_char(d as nat)],
{
    proof {
        reveal_strlit("0");
        reveal_strlit("1");
        reveal_strlit("2");
        reveal_strlit("3");
        reveal_strlit("4");
        reveal_strlit("5");
        reveal_strlit("6");
        reveal_strlit("7");
        reveal_strlit("8");
        reveal_strlit("9");
    }
    match d {
        0 => "0",
        1 => "1",
        2 => "2",
        3 => "3",
        4 => "4",
        5 => "5",
        6 => "6",
        7 => "7",
        8 => "8",
        _ => "9",
    }
}

fn append_decimal(out: &mut String, n: u16)
    ensures
        final(out)@ == old(out)@ + decimal(n as nat),
    decreases n,
{
    if n >= 10 {
        append_decimal(out, n / 10);
    }
    out.append(digit_str(n % 10));
    assert(final(out)@ =~= old(out)@ + decimal(n as nat));
}

/// `addr` as `a.b.c.d:port`.
pub fn addr_string(addr: &ListenAddr) -> (r: String)
    ensures
        r@ == addr_text(addr.ip@, addr.port),
{
    let mut out = String::new();
    append_decimal(&mut out, addr.ip[0] as u16);
    out.append(".");
    append_decimal(&mut out, addr.ip[1] as u16);
    out.append(".");
    append_decimal(&mut out, addr.ip[2] as u16);
    out.append(".");
    append_decimal(&mut out, addr.ip[3] as u16);
    out.append(":");
    append_decimal(&mut out, addr.port);
    proof {
        reveal_strlit(".");
        reveal_strlit(":");
    }
    assert(out@ =~= addr_text(addr.ip@, addr.port));
    out
}

/// The line announcing that the service listens on `addr`.
pub fn startup_line(addr: &ListenAddr) -> (r: String)
    ensures
        r@ == startup_text(*addr),
{
    let mut out = String::from_str("Rust backend listening on http://");
    out.append(addr_string(addr).as_str());
    out
}

} // verus!
