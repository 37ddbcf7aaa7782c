//! Human-readable rendering of byte counts and speeds, and the
//! broadcast address derived from the local IPv4 address.
//!
//! Everything here is integer arithmetic with an exact specification:
//! a size is shown in the largest binary unit it reaches, with two
//! decimals rounded half-up.

use vstd::prelude::*;

verus! {

/// The decimal digit character for a value below ten.
pub open spec fn dec_digit(n: nat) -> char {
    if n == 0 {
        '0'
    } else if n == 1 {
        '1'
    } else if n == 2 {
        '2'
    } else if n == 3 {
        '3'
    } else if n == 4 {
        '4'
    } else if n == 5 {
        '5'
    } else if n == 6 {
        '6'
    } else if n == 7 {
        '7'
    } else if n == 8 {
        '8'
    } else {
        '9'
    }
}

/// The decimal spelling of a number, no sign, no leading zeros.
pub open spec fn dec_str(n: nat) -> Seq<char>
    decreases n,
{
    if n < 10 {
        seq![dec_digit(n)]
    } else {
        dec_str(n / 10).push(dec_digit(n % 10))
    }
}

/// A value below 100 as exactly two digits.
pub open spec fn two_dec_digits(n: nat) -> Seq<char> {
    seq![dec_digit(n / 10), dec_digit(n % 10)]
}

/// One kibibyte; the units climb by this factor.
pub const BYTES_PER_UNIT: u64 = 1024;

/// The index of the unit a byte count is shown in: bytes, KB, MB, GB
/// or TB, the largest one reached.
pub open spec fn spec_unit_index(bytes: u64) -> nat {
    if bytes >= 0x10000000000 {
        4
    } else if bytes >= 0x40000000 {
        3
    } else if bytes >= 0x100000 {
        2
    } else if bytes >= 0x400 {
        1
    } else {
        0
    }
}

/// The suffix for each unit index.
pub open spec fn spec_unit_suffix(k: nat) -> Seq<char> {
    if k == 4 {
        seq![' ', 'T', 'B']
    } else if k == 3 {
        seq![' ', 'G', 'B']
    } else if k == 2 {
        seq![' ', 'M', 'B']
    } else if k == 1 {
        seq![' ', 'K', 'B']
    } else {
        seq![' ', 'B']
    }
}

/// `1024^k` for the unit indices in use.
pub open spec fn spec_unit_divisor(k: nat) -> nat {
    if k == 4 {
        0x10000000000
    } else if k == 3 {
        0x40000000
    } else if k == 2 {
        0x100000
    } else if k == 1 {
        0x400
    } else {
        1
    }
}

/// A byte count in its unit, to two decimals, rounded half-up: the
/// whole part, a dot, two fraction digits, and the suffix. Plain byte
/// counts carry no decimals.
pub open spec fn spec_format_bytes(bytes: u64) -> Seq<char> {
    let k = spec_unit_index(bytes);
    if k == 0 {
        dec_str(bytes as nat) + spec_unit_suffix(0)
    } else {
        let div = spec_unit_divisor(k);
        let whole = bytes as nat / div;
        let hundredths = ((bytes as nat % div) * 100 + div / 2) / div;
        let carried_whole = if hundredths == 100 {
            whole + 1
        } else {
            whole
        };
        let carried_frac = if hundredths == 100 {
            0nat
        } else {
            hundredths
        };
        dec_str(carried_whole) + seq!['.'] + two_dec_digits(carried_frac) + spec_unit_suffix(k)
    }
}

/// The digit below ten, as text.
fn digit_str(d: u64) -> (r: &'static str)
    requires
        d < 10,
    ensures
        r@ == seq![dec_digit(d as nat)],
{
    proof {
        reveal_strlit("0");
        reveal_strlit("1");
        reveal_strlit("2");
        reveal_strlit("3");
        reveal_strlit("4");
        reveal_strlit("5");
        reveal_strlit("6");
        reveal_strlit("7");
        reveal_strlit("8");
        reveal_strlit("9");
    }
    let r = if d == 0 {
        "0"
    } else if d == 1 {
        "1"
    } else if d == 2 {
        "2"
    } else if d == 3 {
        "3"
    } else if d == 4 {
        "4"
    } else if d == 5 {
        "5"
    } else if d == 6 {
        "6"
    } else if d == 7 {
        "7"
    } else if d == 8 {
        "8"
    } else {
        "9"
    };
    proof {
        assert(r@ =~= seq![dec_digit(d as nat)]);
    }
    r
}

/// A number in decimal.
pub fn u64_to_string(n: u64) -> (r: String)
    ensures
        r@ == dec_str(n as nat),
    decreases n,
{
    if n < 10 {
        String::from_str(digit_str(n))
    } else {
        let mut s = u64_to_string(n / 10);
        s.append(digit_str(n % 10));
        proof {
            assert(dec_str((n / 10) as nat).push(dec_digit((n % 10) as nat)) =~= dec_str(
                (n / 10) as nat,
            ) + seq![dec_digit((n % 10) as nat)]);
        }
        s
    }
}

/// A byte count for humans: `512 B`, `1.50 KB`, `2.00 MB`, … in the
/// largest unit reached, two decimals, rounded half-up.
pub fn format_bytes(bytes: u64) -> (r: String)
    ensures
        r@ == spec_format_bytes(bytes),
{
    proof {
        reveal_strlit(".");
        reveal_strlit(" B");
        reveal_strlit(" KB");
        reveal_strlit(" MB");
        reveal_strlit(" GB");
        reveal_strlit(" TB");
    }
    let (div, suffix): (u64, &'static str) = if bytes >= 0x10000000000 {
        (0x10000000000, " TB")
    } else if bytes >= 0x40000000 {
        (0x40000000, " GB")
    } else if bytes >= 0x100000 {
        (0x100000, " MB")
    } else if bytes >= 0x400 {
        (0x400, " KB")
    } else {
        (1, " B")
    };
    proof {
        assert(" B"@ =~= spec_unit_suffix(0));
        assert(" KB"@ =~= spec_unit_suffix(1));
        assert(" MB"@ =~= spec_unit_suffix(2));
        assert(" GB"@ =~= spec_unit_suffix(3));
        assert(" TB"@ =~= spec_unit_suffix(4));
    }
    if div == 1 {
        let mut s = u64_to_string(bytes);
        s.append(suffix);
        s
    } else {
        let whole = bytes / div;
        let rem = bytes % div;
        let hundredths = (rem * 100 + div / 2) / div;
        let (carried_whole, carried_frac): (u64, u64) = if hundredths == 100 {
            (whole + 1, 0)
        } else {
            (whole, hundredths)
        };
        let mut s = u64_to_string(carried_whole);
        s.append(".");
        s.append(digit_str(carried_frac / 10));
        s.append(digit_str(carried_frac % 10));
        s.append(suffix);
        proof {
            assert("."@ =~= seq!['.']);
            assert(s@ =~= spec_format_bytes(bytes));
        }
        s
    }
}

/// A transfer speed: the byte count per second, then `/s`.
pub fn format_speed(bytes_per_sec: u64) -> (r: String)
    ensures
        r@ == spec_format_bytes(bytes_per_sec) + seq!['/', 's'],
{
    proof {
        reveal_strlit("/s");
    }
    let mut s = format_bytes(bytes_per_sec);
    s.append("/s");
    proof {
        assert("/s"@ =~= seq!['/', 's']);
    }
    s
}

/// Seconds left at the given speed; unknowable while the speed reads
/// zero.
pub fn calculate_eta(remaining_bytes: u64, speed_bytes_per_sec: u64) -> (r: Option<u64>)
    ensures
        speed_bytes_per_sec == 0 ==> r is None,
        speed_bytes_per_sec > 0 ==> r == Some(
            (remaining_bytes as int / speed_bytes_per_sec as int) as u64,
        ),
{
    if speed_bytes_per_sec == 0 {
        return None;
    }
    Some(remaining_bytes / speed_bytes_per_sec)
}

/// The /24 broadcast address for a local IPv4 address, or the
/// all-ones address when none is known.
pub open spec fn spec_broadcast_address(ip: Option<[u8; 4]>) -> Seq<char> {
    match ip {
        Some(o) => dec_str(o[0] as nat) + seq!['.'] + dec_str(o[1] as nat) + seq!['.'] + dec_str(
            o[2] as nat,
        ) + seq!['.'] + dec_str(255),
        None => dec_str(255) + seq!['.'] + dec_str(255) + seq!['.'] + dec_str(255) + seq!['.']
            + dec_str(255),
    }
}

/// Where this daemon's advertisements go: the /24 broadcast of its
/// IPv4 address, or `255.255.255.255` with no address to go by.
pub fn get_broadcast_address(local_ip: Option<[u8; 4]>) -> (r: String)
    ensures
        r@ == spec_broadcast_address(local_ip),
{
    let (a, b, c): (u64, u64, u64) = match local_ip {
        Some(o) => (o[0] as u64, o[1] as u64, o[2] as u64),
        None => (255, 255, 255),
    };
    proof {
        reveal_strlit(".");
        assert("."@ =~= seq!['.']);
    }
    let mut s = u64_to_string(a);
    s.append(".");
    let sb = u64_to_string(b);
    s.append(sb.as_str());
    s.append(".");
    let sc = u64_to_string(c);
    s.append(sc.as_str());
    s.append(".");
    let sd = u64_to_string(255);
    s.append(sd.as_str());
    s
}

} // verus!
