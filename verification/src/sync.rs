//! The synchronizer: decides when the downstream display (the channel name)
//! actually needs an external update, so that cycles whose derived name is
//! already shown issue no call at all.
//!
//! The comparison baseline is the last name an external call *succeeded*
//! with; after a failed call it stays pinned, so the next cycle retries
//! rather than silently treating the state as already synced.

use vstd::prelude::*;
use vstd::string::StrSliceExecFns;

verus! {

/// Is an external call owed for deriving `name` against this baseline?
/// Only when the name is not the one already synchronized.
pub open spec fn needs_update(baseline: Option<Seq<char>>, name: Seq<char>) -> bool {
    baseline != Some(name)
}

/// The baseline after one cycle that derives `name`, assuming the call it
/// issues (if any) succeeds.
pub open spec fn advance_baseline(baseline: Option<Seq<char>>, name: Seq<char>) -> Option<
    Seq<char>,
> {
    if needs_update(baseline, name) {
        Some(name)
    } else {
        baseline
    }
}

/// How many external calls a run of cycles issues, one cycle per derived
/// name in order, assuming every issued call succeeds.
pub open spec fn calls_issued(baseline: Option<Seq<char>>, names: Seq<Seq<char>>) -> nat
    decreases names.len(),
{
    if names.len() == 0 {
        0
    } else {
        (if needs_update(baseline, names[0]) {
            1 as nat
        } else {
            0 as nat
        }) + calls_issued(advance_baseline(baseline, names[0]), names.drop_first())
    }
}

/// Law: across any number of consecutive cycles that all derive the name
/// already synchronized, zero external calls are issued.
pub proof fn lemma_sync_idempotent(baseline: Option<Seq<char>>, names: Seq<Seq<char>>, n: Seq<char>)
    requires
        baseline == Some(n),
        forall|i: int| 0 <= i < names.len() ==> #[trigger] names[i] == n,
    ensures
        calls_issued(baseline, names) == 0,
    decreases names.len(),
{
    if names.len() > 0 {
        assert(!needs_update(baseline, names[0]));
        lemma_sync_idempotent(baseline, names.drop_first(), n);
    }
}

/// Law: when every cycle of a nonempty run derives the same name and the
/// baseline differs from it, exactly one external call is issued — on the
/// first cycle, where the derived name first differs — provided that call
/// succeeds and so advances the baseline.
pub proof fn lemma_sync_single_call(
    baseline: Option<Seq<char>>,
    names: Seq<Seq<char>>,
    n: Seq<char>,
)
    requires
        baseline != Some(n),
        names.len() > 0,
        forall|i: int| 0 <= i < names.len() ==> #[trigger] names[i] == n,
    ensures
        calls_issued(baseline, names) == 1,
{
    assert(needs_update(baseline, names[0]));
    assert(advance_baseline(baseline, names[0]) == Some(n));
    lemma_sync_idempotent(Some(n), names.drop_first(), n);
}

/// What the one external call of a cycle is: renaming the existing display
/// channel (given by its position in the scanned list), or creating a fresh
/// one because none matched.
#[derive(Debug, PartialEq, Eq)]
pub enum SyncAction {
    /// Rename the channel at this index of the scanned list.
    Rename(usize),
    /// No existing channel matches: create one.
    Create,
}

/// Decides how to display a freshly derived name: scanning the existing
/// channel names in order, the first whose name the configured display name
/// prefixes is renamed; when none matches, a channel is created.
pub fn decide_sync_action(existing: &Vec<String>, display_name: &str) -> (action: SyncAction)
    ensures
        match action {
            SyncAction::Rename(i) => i < existing@.len() && display_name@.is_prefix_of(
                existing@[i as int]@,
            ) && forall|j: int|
                0 <= j < i ==> !display_name@.is_prefix_of(#[trigger] existing@[j]@),
            SyncAction::Create => forall|j: int|
                0 <= j < existing@.len() ==> !display_name@.is_prefix_of(#[trigger] existing@[j]@),
        },
{
    let mut i: usize = 0;
    while i < existing.len()
        invariant
            i <= existing@.len(),
            forall|j: int| 0 <= j < i ==> !display_name@.is_prefix_of(#[trigger] existing@[j]@),
        decreases existing@.len() - i,
    {
        if str_has_prefix(existing[i].as_str(), display_name) {
            return SyncAction::Rename(i);
        }
        i = i + 1;
    }
    SyncAction::Create
}

// Does `s` start with `prefix`, character by character?
fn str_has_prefix(s: &str, prefix: &str) -> (r: bool)
    ensures
        r == prefix@.is_prefix_of(s@),
{
    let plen = prefix.unicode_len();
    let slen = s.unicode_len();
    if plen > slen {
        return false;
    }
    let mut j: usize = 0;
    while j < plen
        invariant
            j <= plen,
            plen == prefix@.len(),
            slen == s@.len(),
            plen <= slen,
            forall|k: int| 0 <= k < j ==> prefix@[k] == s@[k],
        decreases plen - j,
    {
        if prefix.get_char(j) != s.get_char(j) {
            return false;
        }
        j = j + 1;
    }
    proof {
        assert(prefix@ =~= s@.subrange(0, prefix@.len() as int));
    }
    true
}

// Character-by-character string comparison: true exactly on equal contents.
fn str_eq_chars(a: &str, b: &str) -> (r: bool)
    ensures
        r == (a@ == b@),
{
    let alen = a.unicode_len();
    let blen = b.unicode_len();
    if alen != blen {
        return false;
    }
    let mut j: usize = 0;
    while j < alen
        invariant
            j <= alen,
            alen == a@.len(),
            alen == b@.len(),
            forall|k: int| 0 <= k < j ==> a@[k] == b@[k],
        decreases alen - j,
    {
        if a.get_char(j) != b.get_char(j) {
            return false;
        }
        j = j + 1;
    }
    proof {
        assert(a@ =~= b@);
    }
    true
}

/// The synchronizer's whole state: the name the display is known to carry,
/// or `None` before the first successful external call.
pub struct Synchronizer {
    baseline: Option<String>,
}

impl Synchronizer {
    /// The synchronized name as the contracts see it.
    pub closed spec fn baseline_view(&self) -> Option<Seq<char>> {
        match self.baseline {
            Some(b) => Some(b@),
            None => None,
        }
    }

    /// A fresh synchronizer: nothing is known to be displayed yet, so the
    /// first derived name always triggers a call.
    pub fn new() -> (s: Synchronizer)
        ensures
            s.baseline_view() is None,
    {
        Synchronizer { baseline: None }
    }

    /// Should a cycle that derived `name` issue an external call?
    pub fn plan(&self, name: &str) -> (b: bool)
        ensures
            b == needs_update(self.baseline_view(), name@),
    {
        match &self.baseline {
            None => true,
            Some(prev) => !str_eq_chars(prev.as_str(), name),
        }
    }

    /// Records the outcome of an issued call: on success the baseline
    /// advances to the name just displayed; on failure it stays pinned, so
    /// the next cycle retries.
    pub fn record(&mut self, name: String, success: bool)
        ensures
            final(self).baseline_view() == if success {
                Some(name@)
            } else {
                old(self).baseline_view()
            },
    {
        if success {
            self.baseline = Some(name);
        }
    }
}

} // verus!
