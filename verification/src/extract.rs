//! The pure extractor: from the raw comma-delimited status blob to a typed
//! snapshot.
//!
//! Token classification applies two independent rules to every token, in
//! received order, with a later match overwriting an earlier one per field:
//! a token beginning with the literal prefix `lqs` determines the queue count
//! (its remainder parsed as an unsigned decimal; an unparsable remainder
//! leaves the field unset), and any token containing a `:` is taken verbatim
//! as the time-of-day string. The rules are independent, so one token can
//! match both; tokens matching neither are ignored.

use vstd::prelude::*;
use vstd::string::StrSliceExecFns;

use crate::info::{DayzMonitorError, ServerInfo, SnapshotView};

verus! {

/// Splitting on `,` exactly as received: an empty blob is one empty token,
/// and each comma separates two tokens, so `n` commas yield `n + 1` tokens.
pub open spec fn split_commas(s: Seq<char>) -> Seq<Seq<char>>
    decreases s.len(),
{
    if s.len() == 0 {
        seq![Seq::<char>::empty()]
    } else if s[0] == ',' {
        seq![Seq::<char>::empty()] + split_commas(s.drop_first())
    } else {
        let rest = split_commas(s.drop_first());
        seq![seq![s[0]] + rest[0]] + rest.drop_first()
    }
}

pub proof fn lemma_split_commas_nonempty(s: Seq<char>)
    ensures
        split_commas(s).len() >= 1,
    decreases s.len(),
{
    if s.len() > 0 {
        lemma_split_commas_nonempty(s.drop_first());
    }
}

/// Splitting a sequence whose first comma stands at `i` yields the prefix
/// before it, then whatever the remainder after it splits into.
pub proof fn lemma_split_commas_at_first_comma(s: Seq<char>, i: int)
    requires
        0 <= i < s.len(),
        s[i] == ',',
        forall|j: int| 0 <= j < i ==> s[j] != ',',
    ensures
        split_commas(s) =~= seq![s.take(i)] + split_commas(s.skip(i + 1)),
    decreases i,
{
    if i == 0 {
        assert(s.take(0) =~= Seq::<char>::empty());
        assert(s.skip(1) =~= s.drop_first());
    } else {
        let d = s.drop_first();
        lemma_split_commas_at_first_comma(d, i - 1);
        lemma_split_commas_nonempty(d.skip(i));
        assert(d.take(i - 1) =~= s.take(i).drop_first());
        assert(d.skip(i) =~= s.skip(i + 1));
        assert(seq![s[0]] + split_commas(d)[0] =~= s.take(i));
        assert(split_commas(d).drop_first() =~= split_commas(s.skip(i + 1)));
    }
}

/// Splitting a comma-free sequence yields that sequence as the one token.
pub proof fn lemma_split_commas_no_comma(s: Seq<char>)
    requires
        forall|j: int| 0 <= j < s.len() ==> s[j] != ',',
    ensures
        split_commas(s) =~= seq![s],
    decreases s.len(),
{
    if s.len() == 0 {
        assert(s =~= Seq::<char>::empty());
    } else {
        lemma_split_commas_no_comma(s.drop_first());
        let rest = split_commas(s.drop_first());
        assert(rest =~= seq![s.drop_first()]);
        assert(rest.drop_first() =~= Seq::<Seq<char>>::empty());
        assert(seq![s[0]] + s.drop_first() =~= s);
        assert(split_commas(s) =~= seq![s]);
    }
}

/// A token that names the queue depth: it begins with the prefix `lqs`.
pub open spec fn is_queue_token(t: Seq<char>) -> bool {
    t.len() >= 3 && t[0] == 'l' && t[1] == 'q' && t[2] == 's'
}

/// A token taken verbatim as the time of day: any token containing a `:`,
/// whether or not the queue rule also claimed it.
pub open spec fn has_colon(t: Seq<char>) -> bool {
    exists|j: int| 0 <= j < t.len() && #[trigger] t[j] == ':'
}

pub open spec fn is_digit_char(c: char) -> bool {
    48 <= c as int <= 57
}

pub open spec fn digit_val(c: char) -> nat {
    if is_digit_char(c) {
        (c as int - 48) as nat
    } else {
        0
    }
}

pub open spec fn all_digits(t: Seq<char>) -> bool {
    forall|j: int| 0 <= j < t.len() ==> is_digit_char(#[trigger] t[j])
}

/// The value of a digit string read in base ten.
pub open spec fn digits_val(t: Seq<char>) -> nat
    decreases t.len(),
{
    if t.len() == 0 {
        0
    } else {
        digits_val(t.drop_last()) * 10 + digit_val(t.last())
    }
}

/// An unsigned decimal number: one or more digits whose value fits in `u32`.
/// Anything else — empty, a stray sign or letter, or a too-large value —
/// fails to parse.
pub open spec fn parse_u32(t: Seq<char>) -> Option<u32> {
    if t.len() > 0 && all_digits(t) && digits_val(t) <= u32::MAX {
        Some(digits_val(t) as u32)
    } else {
        None
    }
}

/// Extending a digit string never shrinks its value.
pub proof fn lemma_digits_val_prefix(t: Seq<char>, i: int)
    requires
        0 <= i <= t.len(),
    ensures
        digits_val(t.take(i)) <= digits_val(t),
    decreases t.len() - i,
{
    if i < t.len() {
        assert(t.take(i + 1).drop_last() =~= t.take(i));
        assert(t.take(i + 1).last() == t[i]);
        lemma_digits_val_prefix(t, i + 1);
    } else {
        assert(t.take(i) =~= t);
    }
}

/// The queue field after the whole token list is processed: the last
/// `lqs`-prefixed token decides, carrying the parse of its remainder —
/// which is `None` when that remainder fails to parse, even if an earlier
/// `lqs` token had parsed.
pub open spec fn queue_of(toks: Seq<Seq<char>>) -> Option<u32>
    decreases toks.len(),
{
    if toks.len() == 0 {
        None
    } else if is_queue_token(toks.last()) {
        parse_u32(toks.last().skip(3))
    } else {
        queue_of(toks.drop_last())
    }
}

/// The time field after the whole token list is processed: the last token
/// containing a `:` decides.
pub open spec fn time_of(toks: Seq<Seq<char>>) -> Option<Seq<char>>
    decreases toks.len(),
{
    if toks.len() == 0 {
        None
    } else if has_colon(toks.last()) {
        Some(toks.last())
    } else {
        time_of(toks.drop_last())
    }
}

/// What extraction owes for a present blob: both optional fields read off the
/// token list, the counts still zero (they come from elsewhere in the
/// protocol response).
pub open spec fn extracted(blob: Seq<char>) -> SnapshotView {
    SnapshotView {
        server_time: time_of(split_commas(blob)),
        players_in_queue: queue_of(split_commas(blob)),
        players: 0,
        max_players: 0,
    }
}

/// Splits the blob on commas, exactly as [`split_commas`] describes.
pub fn split_commas_exec(s: &str) -> (toks: Vec<String>)
    ensures
        toks.deep_view() == split_commas(s@),
{
    let len = s.unicode_len();
    let mut toks: Vec<String> = Vec::new();
    let mut start: usize = 0;
    let mut i: usize = 0;
    proof {
        assert(s@.skip(0) =~= s@);
        assert(toks.deep_view() =~~= Seq::<Seq<char>>::empty());
        assert(toks.deep_view() + split_commas(s@) =~~= split_commas(s@));
    }
    while i < len
        invariant
            start <= i <= len,
            len == s@.len(),
            forall|j: int| start <= j < i ==> s@[j] != ',',
            split_commas(s@) =~~= toks.deep_view() + split_commas(s@.skip(start as int)),
        decreases len - i,
    {
        let c = s.get_char(i);
        if c == ',' {
            let tok = s.substring_char(start, i);
            let owned = tok.to_owned();
            proof {
                let u = s@.skip(start as int);
                assert(forall|j: int| 0 <= j < i - start ==> u[j] != ',');
                assert(u[i - start] == ',');
                lemma_split_commas_at_first_comma(u, i - start);
                assert(u.take(i - start) =~= owned@);
                assert(u.skip(i - start + 1) =~= s@.skip(i + 1));
            }
            toks.push(owned);
            proof {
                assert(split_commas(s@) =~~= toks.deep_view() + split_commas(s@.skip(i + 1)));
            }
            start = i + 1;
        }
        i = i + 1;
    }
    let tok = s.substring_char(start, len);
    let owned = tok.to_owned();
    proof {
        let u = s@.skip(start as int);
        assert(forall|j: int| 0 <= j < u.len() ==> u[j] != ',');
        lemma_split_commas_no_comma(u);
        assert(u =~= owned@);
    }
    toks.push(owned);
    proof {
        assert(toks.deep_view() =~~= split_commas(s@));
    }
    toks
}

/// Parses an unsigned decimal number, exactly as [`parse_u32`] describes.
pub fn parse_u32_digits(t: &str) -> (r: Option<u32>)
    ensures
        r == parse_u32(t@),
{
    let len = t.unicode_len();
    if len == 0 {
        return None;
    }
    let mut acc: u32 = 0;
    let mut i: usize = 0;
    while i < len
        invariant
            0 < len == t@.len(),
            i <= len,
            all_digits(t@.take(i as int)),
            acc == digits_val(t@.take(i as int)),
        decreases len - i,
    {
        let c = t.get_char(i);
        let u = c as u32;
        if u < 48 || u > 57 {
            proof {
                assert(!is_digit_char(t@[i as int]));
            }
            return None;
        }
        let d = u - 48;
        let wide: u64 = acc as u64 * 10 + d as u64;
        proof {
            assert(t@.take(i as int + 1).drop_last() =~= t@.take(i as int));
            assert(t@.take(i as int + 1).last() == t@[i as int]);
            assert(digits_val(t@.take(i as int + 1)) == wide);
        }
        if wide > u32::MAX as u64 {
            proof {
                lemma_digits_val_prefix(t@, i as int + 1);
            }
            return None;
        }
        acc = wide as u32;
        i = i + 1;
    }
    proof {
        assert(t@.take(len as int) =~= t@);
    }
    Some(acc)
}

/// Does the token begin with the `lqs` prefix?
fn token_is_queue(t: &str) -> (b: bool)
    ensures
        b == is_queue_token(t@),
{
    let len = t.unicode_len();
    if len < 3 {
        false
    } else {
        t.get_char(0) == 'l' && t.get_char(1) == 'q' && t.get_char(2) == 's'
    }
}

/// Does the token contain a `:` anywhere?
fn token_has_colon(t: &str) -> (b: bool)
    ensures
        b == has_colon(t@),
{
    let len = t.unicode_len();
    let mut j: usize = 0;
    while j < len
        invariant
            j <= len,
            len == t@.len(),
            forall|k: int| 0 <= k < j ==> #[trigger] t@[k] != ':',
        decreases len - j,
    {
        if t.get_char(j) == ':' {
            return true;
        }
        j = j + 1;
    }
    false
}

/// The pure extractor: classifies every token of the blob, later matches
/// overwriting earlier ones per field, and fails only when the blob itself
/// was absent from the response. The counts of the returned snapshot are
/// zero; the caller fills them from the rest of the response.
pub fn extract_time_and_queue(keywords: Option<String>) -> (r: Option<ServerInfo>)
    ensures
        r is Some <==> keywords is Some,
        keywords matches Some(blob) ==> (r matches Some(info) && info@ == extracted(blob@)),
{
    let blob = match keywords {
        Some(b) => b,
        None => {
            return None;
        },
    };
    let toks = split_commas_exec(blob.as_str());
    let ghost tv = toks.deep_view();
    let mut time: Option<String> = None;
    let mut queue: Option<u32> = None;
    let mut k: usize = 0;
    while k < toks.len()
        invariant
            k <= toks.len(),
            toks.deep_view() == tv,
            tv == split_commas(blob@),
            tv.len() == toks.len(),
            queue == queue_of(tv.take(k as int)),
            (match time {
                Some(t) => Some(t@),
                None => None,
            }) == time_of(tv.take(k as int)),
        decreases toks.len() - k,
    {
        let tok: &String = &toks[k];
        proof {
            assert(tv.take(k as int + 1).drop_last() =~= tv.take(k as int));
            assert(tv.take(k as int + 1).last() == tv[k as int]);
            assert(tv[k as int] == tok@);
        }
        if token_is_queue(tok.as_str()) {
            let tok_len = tok.as_str().unicode_len();
            let rem = tok.as_str().substring_char(3, tok_len);
            proof {
                assert(rem@ =~= tok@.skip(3));
            }
            queue = parse_u32_digits(rem);
        }
        if token_has_colon(tok.as_str()) {
            time = Some(tok.clone());
        }
        k = k + 1;
    }
    proof {
        assert(tv.take(toks.len() as int) =~= tv);
    }
    Some(
        ServerInfo {
            server_time: time,
            players_in_queue: queue,
            players: 0,
            max_players: 0,
        },
    )
}

/// The compute half of one query round trip: extraction plus the two counts
/// taken from the rest of the response. Succeeds exactly when the blob field
/// was present; its absence is the one extraction failure.
pub fn build_server_info(keywords: Option<String>, players: u32, max_players: u32) -> (r: Result<
    ServerInfo,
    DayzMonitorError,
>)
    ensures
        r is Ok <==> keywords is Some,
        keywords is None ==> (r matches Err(e) && e is ExtractServerInfoKeywordsNonExistant),
        keywords matches Some(blob) ==> (r matches Ok(info) && info@ == (SnapshotView {
            players,
            max_players,
            ..extracted(blob@)
        })),
{
    match extract_time_and_queue(keywords) {
        Some(info) => Ok(
            ServerInfo {
                server_time: info.server_time,
                players_in_queue: info.players_in_queue,
                players,
                max_players,
            },
        ),
        None => Err(DayzMonitorError::ExtractServerInfoKeywordsNonExistant),
    }
}

} // verus!
