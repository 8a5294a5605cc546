//! The broadcaster: renders a probe result into the two-line status message
//! and hands it to the session's outward channel while the session lives.

use vstd::prelude::*;
use vstd::string::StringExecFns;
use crate::probe::ProbeResult;
use crate::session::{ConnectionSession, SessionState};

verus! {

/// The numeral of one decimal digit.
pub open spec fn digit_char(d: nat) -> char {
    if d == 0 {
        '0'
    } else if d == 1 {
        '1'
    } else if d == 2 {
        '2'
    } else if d == 3 {
        '3'
    } else if d == 4 {
        '4'
    } else if d == 5 {
        '5'
    } else if d == 6 {
        '6'
    } else if d == 7 {
        '7'
    } else if d == 8 {
        '8'
    } else {
        '9'
    }
}

/// The decimal numeral of `n`, most significant digit first, without leading
/// zeros (a single digit for values below ten).
pub open spec fn dec_spec(n: nat) -> Seq<char>
    decreases n,
{
    if n < 10 {
        seq![digit_char(n)]
    } else {
        dec_spec(n / 10) + seq![digit_char(n % 10)]
    }
}

/// A rate in hundredths of MB/s, printed as MB/s with exactly two decimal
/// digits: the whole part, a point, tens and ones of the fraction.
pub open spec fn rate_text_spec(centi: nat) -> Seq<char> {
    dec_spec(centi / 100) + seq!['.', digit_char((centi % 100) / 10), digit_char((centi % 100) % 10)]
}

/// The two-line status message for one probe result: the stream rate, then
/// the datagram rate, both to two decimal places.
pub open spec fn status_text_spec(stream_centi: nat, datagram_centi: nat) -> Seq<char> {
    "TCP Speed: "@ + rate_text_spec(stream_centi) + " MB/s\nUDP Speed: "@ + rate_text_spec(
        datagram_centi,
    ) + " MB/s"@
}

/// The one-character numeral of a decimal digit.
fn digit_str(d: u64) -> (s: &'static str)
    requires
        d < 10,
    ensures
        s@ == seq![digit_char(d as nat)],
{
    let s: &'static str = if d == 0 {
        "0"
    } else if d == 1 {
        "1"
    } else if d == 2 {
        "2"
    } else if d == 3 {
        "3"
    } else if d == 4 {
        "4"
    } else if d == 5 {
        "5"
    } else if d == 6 {
        "6"
    } else if d == 7 {
        "7"
    } else if d == 8 {
        "8"
    } else {
        "9"
    };
    proof {
        reveal_strlit("0");
        reveal_strlit("1");
        reveal_strlit("2");
        reveal_strlit("3");
        reveal_strlit("4");
        reveal_strlit("5");
        reveal_strlit("6");
        reveal_strlit("7");
        reveal_strlit("8");
        reveal_strlit("9");
        assert(s@ =~= seq![digit_char(d as nat)]);
    }
    s
}

/// Appends the decimal numeral of `n`.
fn push_dec(n: u64, out: &mut String)
    ensures
        final(out)@ == old(out)@ + dec_spec(n as nat),
    decreases n,
{
    if n < 10 {
        out.append(digit_str(n));
    } else {
        push_dec(n / 10, out);
        out.append(digit_str(n % 10));
        proof {
            assert(out@ =~= old(out)@ + dec_spec(n as nat));
        }
    }
}

/// Appends a rate in hundredths of MB/s with exactly two decimal digits.
fn push_rate(centi: u64, out: &mut String)
    ensures
        final(out)@ == old(out)@ + rate_text_spec(centi as nat),
{
    push_dec(centi / 100, out);
    out.append(".");
    let frac: u64 = centi % 100;
    out.append(digit_str(frac / 10));
    out.append(digit_str(frac % 10));
    proof {
        reveal_strlit(".");
        assert(out@ =~= old(out)@ + rate_text_spec(centi as nat));
    }
}

/// Renders the status message for one probe result.
pub fn render_status(result: &ProbeResult) -> (msg: String)
    ensures
        msg@ == status_text_spec(
            result.stream_rate_centi_mbps as nat,
            result.datagram_rate_centi_mbps as nat,
        ),
{
    let mut msg = String::from_str("TCP Speed: ");
    push_rate(result.stream_rate_centi_mbps, &mut msg);
    msg.append(" MB/s\nUDP Speed: ");
    push_rate(result.datagram_rate_centi_mbps, &mut msg);
    msg.append(" MB/s");
    proof {
        assert(msg@ =~= status_text_spec(
            result.stream_rate_centi_mbps as nat,
            result.datagram_rate_centi_mbps as nat,
        ));
    }
    msg
}

/// Delivery of one probe result: an `Active` session gets the rendered
/// status message for its outward channel; a session that began closing, or
/// closed, gets nothing — the result is discarded, never an error.
pub fn deliver(session: &ConnectionSession, result: &ProbeResult) -> (msg: Option<String>)
    ensures
        (session.state == SessionState::Active) <==> (msg is Some),
        msg matches Some(m) ==> m@ == status_text_spec(
            result.stream_rate_centi_mbps as nat,
            result.datagram_rate_centi_mbps as nat,
        ),
{
    match session.state {
        SessionState::Active => Some(render_status(result)),
        _ => None,
    }
}

} // verus!
