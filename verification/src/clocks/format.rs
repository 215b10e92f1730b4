//! Single-line status reports for probe and sync packets.
use vstd::prelude::*;
use vstd::string::StringExecFns;

verus! {

/// The decimal digit character for `d < 10`.
pub open spec fn digit_char(d: nat) -> char {
    if d == 0 {
        '0'
    } else if d == 1 {
        '1'
    } else if d == 2 {
        '2'
    } else if d == 3 {
        '3'
    } else if d == 4 {
        '4'
    } else if d == 5 {
        '5'
    } else if d == 6 {
        '6'
    } else if d == 7 {
        '7'
    } else if d == 8 {
        '8'
    } else {
        '9'
    }
}

/// Decimal rendering of a natural number, without leading zeros.
pub open spec fn decimal(n: nat) -> Seq<char>
    decreases n,
{
    if n < 10 {
        seq![digit_char(n)]
    } else {
        decimal(n / 10).push(digit_char(n % 10))
    }
}

/// Decimal rendering of an integer, with a leading `-` when negative.
pub open spec fn signed_decimal(i: int) -> Seq<char> {
    if i < 0 {
        seq!['-'] + decimal((-i) as nat)
    } else {
        decimal(i as nat)
    }
}

/// Rendering of an optional integer: its decimal form, or `-` when absent.
pub open spec fn optional_decimal(v: Option<i64>) -> Seq<char> {
    match v {
        Some(i) => signed_decimal(i as int),
        None => seq!['-'],
    }
}

/// Rendering of a boolean: `true` or `false`.
pub open spec fn bool_text(b: bool) -> Seq<char> {
    if b {
        seq!['t', 'r', 'u', 'e']
    } else {
        seq!['f', 'a', 'l', 's', 'e']
    }
}

fn digit_str(d: u64) -> (r: &'static str)
    requires
        d < 10,
    ensures
        r@ == seq![digit_char(d as nat)],
{
    proof {
        reveal_strlit("0");
        reveal_strlit("1");
        reveal_strlit("2");
        reveal_strlit("3");
        reveal_strlit("4");
        reveal_strlit("5");
        reveal_strlit("6");
        reveal_strlit("7");
        reveal_strlit("8");
        reveal_strlit("9");
    }
    if d == 0 {
        "0"
    } else if d == 1 {
        "1"
    } else if d == 2 {
        "2"
    } else if d == 3 {
        "3"
    } else if d == 4 {
        "4"
    } else if d == 5 {
        "5"
    } else if d == 6 {
        "6"
    } else if d == 7 {
        "7"
    } else if d == 8 {
        "8"
    } else {
        "9"
    }
}

/// Append the decimal rendering of `n` to `s`.
pub fn push_decimal(s: &mut String, n: u64)
    ensures
        final(s)@ == old(s)@ + decimal(n as nat),
    decreases n,
{
    if n >= 10 {
        push_decimal(s, n / 10);
    }
    s.append(digit_str(n % 10));
    proof {
        if n >= 10 {
            assert(old(s)@ + decimal(n as nat) =~= old(s)@ + decimal((n / 10) as nat) + seq![digit_char((n % 10) as nat)]);
        } else {
            assert(n % 10 == n);
        }
    }
}

/// Append the decimal rendering of `i` (with `-` when negative) to `s`.
pub fn push_signed_decimal(s: &mut String, i: i64)
    ensures
        final(s)@ == old(s)@ + signed_decimal(i as int),
{
    if i < 0 {
        proof {
            reveal_strlit("-");
        }
        s.append("-");
        let magnitude = (0 - (i as i128)) as u64;
        push_decimal(s, magnitude);
        assert(final(s)@ =~= old(s)@ + signed_decimal(i as int));
    } else {
        push_decimal(s, i as u64);
    }
}

fn push_optional(s: &mut String, v: Option<i64>)
    ensures
        final(s)@ == old(s)@ + optional_decimal(v),
{
    match v {
        Some(i) => push_signed_decimal(s, i),
        None => {
            proof {
                reveal_strlit("-");
            }
            s.append("-");
        },
    }
}

fn push_bool(s: &mut String, b: bool)
    ensures
        final(s)@ == old(s)@ + bool_text(b),
{
    proof {
        reveal_strlit("true");
        reveal_strlit("false");
    }
    if b {
        s.append("true");
    } else {
        s.append("false");
    }
}

/// Format a single-line status report for a probe packet.
pub fn format_probe_stats(
    label: &str,
    seq: u32,
    local_ms: u32,
    remote_ms: Option<i64>,
    correction_ms: Option<i64>,
    min_delta: u32,
    synced: bool,
    start_delta_ms: Option<i64>,
) -> (r: String)
    ensures
        r@ == label@ + " seq="@ + decimal(seq as nat) + " local_ms="@ + decimal(local_ms as nat) + " remote_ms="@
            + optional_decimal(remote_ms) + " correction_ms="@ + optional_decimal(correction_ms) + " min_delta="@
            + decimal(min_delta as nat) + " synced="@ + bool_text(synced) + " start_delta_ms="@ + optional_decimal(
            start_delta_ms,
        ),
{
    let mut s = String::from_str(label);
    s.append(" seq=");
    push_decimal(&mut s, seq as u64);
    s.append(" local_ms=");
    push_decimal(&mut s, local_ms as u64);
    s.append(" remote_ms=");
    push_optional(&mut s, remote_ms);
    s.append(" correction_ms=");
    push_optional(&mut s, correction_ms);
    s.append(" min_delta=");
    push_decimal(&mut s, min_delta as u64);
    s.append(" synced=");
    push_bool(&mut s, synced);
    s.append(" start_delta_ms=");
    push_optional(&mut s, start_delta_ms);
    s
}

/// Format a single-line status report for a received sync packet.
pub fn format_sync_stats(label: &str, min_delta: u32, synced: bool, start_delta_ms: Option<i64>) -> (r: String)
    ensures
        r@ == label@ + " sync received min_delta="@ + decimal(min_delta as nat) + " synced="@ + bool_text(synced)
            + " start_delta_ms="@ + optional_decimal(start_delta_ms),
{
    let mut s = String::from_str(label);
    s.append(" sync received min_delta=");
    push_decimal(&mut s, min_delta as u64);
    s.append(" synced=");
    push_bool(&mut s, synced);
    s.append(" start_delta_ms=");
    push_optional(&mut s, start_delta_ms);
    s
}

} // verus!
