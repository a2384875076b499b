//! Reply text of the latency check. The measured round-trip latency comes
//! from the live connection and is handed in as a number of milliseconds; a
//! connection that was just established reports zero. The reply is built
//! here, digit by digit, and pinned down exactly.
use vstd::prelude::*;
use vstd::string::StringExecFns;

verus! {

/// The character of one decimal digit.
pub open spec fn dec_digit_char(d: nat) -> char {
    if d == 0 {
        '0'
    } else if d == 1 {
        '1'
    } else if d == 2 {
        '2'
    } else if d == 3 {
        '3'
    } else if d == 4 {
        '4'
    } else if d == 5 {
        '5'
    } else if d == 6 {
        '6'
    } else if d == 7 {
        '7'
    } else if d == 8 {
        '8'
    } else {
        '9'
    }
}

/// The decimal representation of a number, most significant digit first,
/// with no sign and no leading zero (a single zero for zero itself).
pub open spec fn dec_str_spec(n: nat) -> Seq<char>
    decreases n,
{
    if n < 10 {
        seq![dec_digit_char(n)]
    } else {
        dec_str_spec(n / 10).push(dec_digit_char(n % 10))
    }
}

/// The reply of the latency check for a measured latency in milliseconds.
pub open spec fn ping_reply_spec(ms: nat) -> Seq<char> {
    "Pong! Latency: "@ + dec_str_spec(ms) + " ms"@
}

/// One decimal digit as text.
fn dec_digit(d: u64) -> (r: &'static str)
    requires
        d < 10,
    ensures
        r@ == seq![dec_digit_char(d as nat)],
{
    let r: &'static str = if d == 0 {
        "0"
    } else if d == 1 {
        "1"
    } else if d == 2 {
        "2"
    } else if d == 3 {
        "3"
    } else if d == 4 {
        "4"
    } else if d == 5 {
        "5"
    } else if d == 6 {
        "6"
    } else if d == 7 {
        "7"
    } else if d == 8 {
        "8"
    } else {
        "9"
    };
    proof {
        reveal_strlit("0");
        reveal_strlit("1");
        reveal_strlit("2");
        reveal_strlit("3");
        reveal_strlit("4");
        reveal_strlit("5");
        reveal_strlit("6");
        reveal_strlit("7");
        reveal_strlit("8");
        reveal_strlit("9");
    }
    assert(r@ =~= seq![dec_digit_char(d as nat)]);
    r
}

/// The decimal representation of a number.
pub fn u64_to_dec(n: u64) -> (s: String)
    ensures
        s@ == dec_str_spec(n as nat),
    decreases n,
{
    if n < 10 {
        dec_digit(n).to_owned()
    } else {
        let mut s = u64_to_dec(n / 10);
        s.append(dec_digit(n % 10));
        assert(s@ =~= dec_str_spec(n as nat));
        s
    }
}

/// Builds the reply of the latency check. The latency is a count of
/// milliseconds, so it is never negative; a connection that has just been
/// established hands in zero and the reply reads zero.
pub fn ping_reply(latency_ms: u64) -> (r: String)
    ensures
        r@ == ping_reply_spec(latency_ms as nat),
{
    let mut r = "Pong! Latency: ".to_owned();
    r.append(u64_to_dec(latency_ms).as_str());
    r.append(" ms");
    assert(r@ =~= ping_reply_spec(latency_ms as nat));
    r
}

/// The reply for a just-established connection reads a literal zero.
pub proof fn lemma_ping_reply_fresh_connection()
    ensures
        ping_reply_spec(0) == "Pong! Latency: 0 ms"@,
{
    reveal_strlit("Pong! Latency: ");
    reveal_strlit(" ms");
    reveal_strlit("Pong! Latency: 0 ms");
    assert(ping_reply_spec(0) =~= "Pong! Latency: 0 ms"@);
}

} // verus!
