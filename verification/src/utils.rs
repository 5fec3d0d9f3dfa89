//! Small decisions around the radio: the bounded connect, the wait for an
//! address, and the name under which the device offers itself.

use crate::structs::ConnectionOutcome;
use vstd::arithmetic::div_mod::lemma_div_decreases;
use vstd::prelude::*;
use vstd::string::StringExecFns;

verus! {

/// Time between two looks at the network stack while waiting for an address,
/// in milliseconds.
pub const ADDRESS_POLL_MS: u64 = 50;

/// The hardware identifier as a number: its six bytes, the first one highest.
pub open spec fn mac_value(mac: Seq<u8>) -> nat
    recommends
        mac.len() == 6,
{
    (mac[0] as nat) * 0x100_0000_0000 + (mac[1] as nat) * 0x1_0000_0000 + (mac[2] as nat) * 0x100_0000 + (
    mac[3] as nat) * 0x1_0000 + (mac[4] as nat) * 0x100 + (mac[5] as nat)
}

/// The hardware identifier as a number: its six bytes, the first one highest.
pub fn get_efuse_mac(mac: [u8; 6]) -> (r: u64)
    ensures
        r == mac_value(mac@),
        r < 0x1_0000_0000_0000,
{
    (mac[0] as u64) * 0x100_0000_0000 + (mac[1] as u64) * 0x1_0000_0000 + (mac[2] as u64) * 0x100_0000 + (
    mac[3] as u64) * 0x1_0000 + (mac[4] as u64) * 0x100 + (mac[5] as u64)
}

/// The upper-case hexadecimal digit of a value below sixteen.
pub open spec fn hex_digit(d: nat) -> char
    recommends
        d < 16,
{
    if d == 0 {
        '0'
    } else if d == 1 {
        '1'
    } else if d == 2 {
        '2'
    } else if d == 3 {
        '3'
    } else if d == 4 {
        '4'
    } else if d == 5 {
        '5'
    } else if d == 6 {
        '6'
    } else if d == 7 {
        '7'
    } else if d == 8 {
        '8'
    } else if d == 9 {
        '9'
    } else if d == 10 {
        'A'
    } else if d == 11 {
        'B'
    } else if d == 12 {
        'C'
    } else if d == 13 {
        'D'
    } else if d == 14 {
        'E'
    } else {
        'F'
    }
}

/// A number written with the digits of `base`, highest first, without
/// leading zeros; zero is a single `0`.
pub open spec fn digits(n: nat, base: nat) -> Seq<char>
    recommends
        2 <= base <= 16,
    decreases n,
{
    if base < 2 || n < base {
        seq![hex_digit(n)]
    } else {
        proof {
            lemma_div_decreases(n as int, base as int);
        }
        digits(n / base, base).push(hex_digit(n % base))
    }
}

/// A number in upper-case hexadecimal.
pub open spec fn upper_hex(n: nat) -> Seq<char> {
    digits(n, 16)
}

/// A number in decimal.
pub open spec fn decimal(n: nat) -> Seq<char> {
    digits(n, 10)
}

/// The digit of a value below sixteen, as a string of one character.
pub fn digit_str(d: u64) -> (r: &'static str)
    requires
        d < 16,
    ensures
        r@ == seq![hex_digit(d as nat)],
{
    proof {
        reveal_strlit("0");
        reveal_strlit("1");
        reveal_strlit("2");
        reveal_strlit("3");
        reveal_strlit("4");
        reveal_strlit("5");
        reveal_strlit("6");
        reveal_strlit("7");
        reveal_strlit("8");
        reveal_strlit("9");
        reveal_strlit("A");
        reveal_strlit("B");
        reveal_strlit("C");
        reveal_strlit("D");
        reveal_strlit("E");
        reveal_strlit("F");
    }
    let r = if d == 0 {
        "0"
    } else if d == 1 {
        "1"
    } else if d == 2 {
        "2"
    } else if d == 3 {
        "3"
    } else if d == 4 {
        "4"
    } else if d == 5 {
        "5"
    } else if d == 6 {
        "6"
    } else if d == 7 {
        "7"
    } else if d == 8 {
        "8"
    } else if d == 9 {
        "9"
    } else if d == 10 {
        "A"
    } else if d == 11 {
        "B"
    } else if d == 12 {
        "C"
    } else if d == 13 {
        "D"
    } else if d == 14 {
        "E"
    } else {
        "F"
    };
    assert(r@ =~= seq![hex_digit(d as nat)]);
    r
}

/// Writes a number with the digits of `base`.
pub fn write_digits(n: u64, base: u64) -> (r: String)
    requires
        2 <= base <= 16,
    ensures
        r@ == digits(n as nat, base as nat),
    decreases n,
{
    if n < base {
        digit_str(n).to_owned()
    } else {
        proof {
            lemma_div_decreases(n as int, base as int);
        }
        let mut text = write_digits(n / base, base);
        text.append(digit_str(n % base));
        text
    }
}

/// The name under which the device offers itself while it is being
/// provisioned: the prefix, then the hardware identifier in upper-case
/// hexadecimal.
pub open spec fn fallback_identifier_of(prefix: Seq<char>, mac: Seq<u8>) -> Seq<char> {
    prefix + upper_hex(mac_value(mac))
}

/// The name under which the device offers itself while it is being
/// provisioned. The same prefix and hardware identifier always give the same
/// name.
pub fn fallback_identifier(prefix: &str, mac: [u8; 6]) -> (r: String)
    ensures
        r@ == fallback_identifier_of(prefix@, mac@),
{
    let mut name = prefix.to_owned();
    let number = write_digits(get_efuse_mac(mac), 16);
    name.append(number.as_str());
    name
}

/// What a bounded connect does next.
#[derive(Clone, Copy, Debug, PartialEq, Eq, Structural)]
pub enum ConnectStep {
    /// Ask the radio to connect and give it no longer than `budget`
    /// milliseconds.
    Attempt { budget: u64 },
    /// The connect is over.
    Done(ConnectionOutcome),
}

/// What a bounded connect does next, `elapsed` milliseconds after it began
/// and with `last` as the outcome of the attempt before.
///
/// An attempt that connected or ran out of time ends the connect. After none,
/// or after one that was rejected, another follows with the time that is left;
/// once more than `wifi_conn_timeout` has passed, the connect ends as timed
/// out, or as rejected where the last attempt was.
pub open spec fn connect_step(elapsed: u64, wifi_conn_timeout: u64, last: Option<ConnectionOutcome>) -> ConnectStep {
    match last {
        Some(ConnectionOutcome::Connected) => ConnectStep::Done(ConnectionOutcome::Connected),
        Some(ConnectionOutcome::TimedOut) => ConnectStep::Done(ConnectionOutcome::TimedOut),
        Some(ConnectionOutcome::Rejected) => if elapsed > wifi_conn_timeout {
            ConnectStep::Done(ConnectionOutcome::Rejected)
        } else {
            ConnectStep::Attempt { budget: (wifi_conn_timeout - elapsed) as u64 }
        },
        None => if elapsed > wifi_conn_timeout {
            ConnectStep::Done(ConnectionOutcome::TimedOut)
        } else {
            ConnectStep::Attempt { budget: (wifi_conn_timeout - elapsed) as u64 }
        },
    }
}

/// What a bounded connect does next; see `connect_step`. An attempt never
/// gets more time than is left of `wifi_conn_timeout`.
pub fn try_to_wifi_connect(elapsed: u64, wifi_conn_timeout: u64, last: Option<ConnectionOutcome>) -> (r: ConnectStep)
    ensures
        r == connect_step(elapsed, wifi_conn_timeout, last),
        r matches ConnectStep::Attempt { budget } ==> elapsed + budget == wifi_conn_timeout,
{
    match last {
        Some(ConnectionOutcome::Connected) => ConnectStep::Done(ConnectionOutcome::Connected),
        Some(ConnectionOutcome::TimedOut) => ConnectStep::Done(ConnectionOutcome::TimedOut),
        Some(ConnectionOutcome::Rejected) => {
            if elapsed > wifi_conn_timeout {
                ConnectStep::Done(ConnectionOutcome::Rejected)
            } else {
                ConnectStep::Attempt { budget: wifi_conn_timeout - elapsed }
            }
        },
        None => {
            if elapsed > wifi_conn_timeout {
                ConnectStep::Done(ConnectionOutcome::TimedOut)
            } else {
                ConnectStep::Attempt { budget: wifi_conn_timeout - elapsed }
            }
        },
    }
}

/// What the wait for an address does next.
#[derive(Clone, Copy, Debug)]
pub enum AddressStep {
    /// Sleep, then look again.
    Wait { millis: u64 },
    /// The address is assigned.
    Ready([u8; 4]),
}

/// What the wait for an address does next: the address counts once the link
/// is up and the stack has one; until then the caller looks again every 50
/// milliseconds, for as long as it takes.
pub fn wifi_wait_for_ip(link_up: bool, address: Option<[u8; 4]>) -> (r: AddressStep)
    ensures
        link_up && address is Some ==> r == AddressStep::Ready(address->0),
        !link_up || address is None ==> r == (AddressStep::Wait { millis: ADDRESS_POLL_MS }),
{
    if !link_up {
        return AddressStep::Wait { millis: ADDRESS_POLL_MS };
    }
    match address {
        Some(ip) => AddressStep::Ready(ip),
        None => AddressStep::Wait { millis: ADDRESS_POLL_MS },
    }
}

} // verus!
