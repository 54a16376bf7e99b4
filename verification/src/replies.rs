//! Human-facing text derived from a snapshot: the "count" and "time" replies
//! and the display-channel name the synchronizer keeps up to date.

use vstd::prelude::*;
use vstd::string::StrSliceExecFns;
use vstd::string::StringExecFns;

use crate::info::{ServerInfo, SnapshotView};

verus! {

/// The decimal digit character for a value below ten.
pub open spec fn digit_char(d: nat) -> char {
    if d == 0 {
        '0'
    } else if d == 1 {
        '1'
    } else if d == 2 {
        '2'
    } else if d == 3 {
        '3'
    } else if d == 4 {
        '4'
    } else if d == 5 {
        '5'
    } else if d == 6 {
        '6'
    } else if d == 7 {
        '7'
    } else if d == 8 {
        '8'
    } else {
        '9'
    }
}

/// The usual decimal rendering of a number: no sign, no leading zero except
/// for the number zero itself.
pub open spec fn dec_rep(n: nat) -> Seq<char>
    decreases n,
{
    if n < 10 {
        seq![digit_char(n)]
    } else {
        dec_rep(n / 10) + seq![digit_char(n % 10)]
    }
}

/// The "count" reply: `"<players> (+ <queued>) / <max> players online."`
/// when the queue depth is known, `"<players> / <max> players online."`
/// when it is not.
pub open spec fn count_reply(v: SnapshotView) -> Seq<char> {
    match v.players_in_queue {
        Some(q) => dec_rep(v.players as nat) + " (+ "@ + dec_rep(q as nat) + ") / "@ + dec_rep(
            v.max_players as nat,
        ) + " players online."@,
        None => dec_rep(v.players as nat) + " / "@ + dec_rep(v.max_players as nat)
            + " players online."@,
    }
}

/// The "time" reply: the cached time-of-day formatted into a sentence, or a
/// fallback message when none is known.
pub open spec fn time_reply_text(v: SnapshotView) -> Seq<char> {
    match v.server_time {
        Some(t) => "Time on the DayZ server is: "@ + t,
        None => "Unable to get the current time of the DayZ server."@,
    }
}

/// The display-channel name derived from a snapshot:
/// `"<name>: <count reply>"`.
pub open spec fn channel_name(server_name: Seq<char>, v: SnapshotView) -> Seq<char> {
    server_name + ": "@ + count_reply(v)
}

/// The one-character string for a decimal digit.
fn digit_str(d: u32) -> (r: &'static str)
    requires
        d < 10,
    ensures
        r@ =~= seq![digit_char(d as nat)],
{
    proof {
        reveal_strlit("0");
        reveal_strlit("1");
        reveal_strlit("2");
        reveal_strlit("3");
        reveal_strlit("4");
        reveal_strlit("5");
        reveal_strlit("6");
        reveal_strlit("7");
        reveal_strlit("8");
        reveal_strlit("9");
    }
    if d == 0 {
        "0"
    } else if d == 1 {
        "1"
    } else if d == 2 {
        "2"
    } else if d == 3 {
        "3"
    } else if d == 4 {
        "4"
    } else if d == 5 {
        "5"
    } else if d == 6 {
        "6"
    } else if d == 7 {
        "7"
    } else if d == 8 {
        "8"
    } else {
        "9"
    }
}

// The reversed digit characters of a digit sequence collected least
// significant first.
spec fn rev_digit_chars(ds: Seq<u32>) -> Seq<char> {
    Seq::new(ds.len(), |j: int| digit_char(ds[ds.len() - 1 - j] as nat))
}

/// Renders a number in decimal, exactly as [`dec_rep`] describes.
pub fn u32_to_string(n: u32) -> (s: String)
    ensures
        s@ == dec_rep(n as nat),
{
    let mut m: u32 = n;
    let mut rev: Vec<u32> = Vec::new();
    rev.push(m % 10);
    m = m / 10;
    proof {
        assert(rev_digit_chars(rev@) =~= seq![digit_char((n % 10) as nat)]);
    }
    while m > 0
        invariant
            forall|j: int| 0 <= j < rev@.len() ==> rev@[j] < 10,
            rev@.len() >= 1,
            if m > 0 {
                dec_rep(n as nat) =~= dec_rep(m as nat) + rev_digit_chars(rev@)
            } else {
                dec_rep(n as nat) =~= rev_digit_chars(rev@)
            },
        decreases m,
    {
        let ghost old_rev = rev@;
        let d = m % 10;
        rev.push(d);
        proof {
            assert(rev_digit_chars(rev@) =~= seq![digit_char(d as nat)] + rev_digit_chars(
                old_rev,
            ));
        }
        m = m / 10;
    }
    let mut s = String::new();
    let mut i: usize = rev.len();
    proof {
        assert(s@ =~= rev_digit_chars(rev@).take(0));
    }
    while i > 0
        invariant
            i <= rev@.len(),
            forall|j: int| 0 <= j < rev@.len() ==> rev@[j] < 10,
            dec_rep(n as nat) =~= rev_digit_chars(rev@),
            s@ =~= rev_digit_chars(rev@).take(rev@.len() - i),
        decreases i,
    {
        i = i - 1;
        let ghost old_s = s@;
        s.append(digit_str(rev[i]));
        proof {
            assert(s@ =~= rev_digit_chars(rev@).take(rev@.len() - i));
        }
    }
    proof {
        assert(rev_digit_chars(rev@).take(rev@.len() as int) =~= rev_digit_chars(rev@));
    }
    s
}

/// The "count" reply, exactly as [`count_reply`] describes. This is what a
/// count query answers with, and what the derived channel name embeds.
pub fn pretty_print_players_in_queue(server_info: &ServerInfo) -> (r: String)
    ensures
        r@ == count_reply(server_info@),
{
    let mut s = u32_to_string(server_info.players);
    match server_info.players_in_queue {
        Some(q) => {
            s.append(" (+ ");
            let qs = u32_to_string(q);
            s.append(qs.as_str());
            s.append(") / ");
        },
        None => {
            s.append(" / ");
        },
    }
    let ms = u32_to_string(server_info.max_players);
    s.append(ms.as_str());
    s.append(" players online.");
    proof {
        assert(s@ =~= count_reply(server_info@));
    }
    s
}

/// The "time" reply, exactly as [`time_reply_text`] describes.
pub fn time_reply(server_info: &ServerInfo) -> (r: String)
    ensures
        r@ == time_reply_text(server_info@),
{
    match &server_info.server_time {
        Some(t) => {
            let mut s = String::from_str("Time on the DayZ server is: ");
            s.append(t.as_str());
            proof {
                assert(s@ =~= time_reply_text(server_info@));
            }
            s
        },
        None => String::from_str("Unable to get the current time of the DayZ server."),
    }
}

/// The display-channel name, exactly as [`channel_name`] describes.
pub fn derived_channel_name(server_name: &str, server_info: &ServerInfo) -> (r: String)
    ensures
        r@ == channel_name(server_name@, server_info@),
{
    let mut s = String::from_str(server_name);
    s.append(": ");
    let reply = pretty_print_players_in_queue(server_info);
    s.append(reply.as_str());
    proof {
        assert(s@ =~= channel_name(server_name@, server_info@));
    }
    s
}

} // verus!
