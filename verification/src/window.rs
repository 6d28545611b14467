//! Window selection: picking one capture target from an enumerated list.
//!
//! The enumerated windows are first filtered down to those with an owning
//! application, which removes desktop-level and systemic pseudo-windows.
//! The remaining windows are scanned in their given order: the running
//! choice starts at the first filtered window and is replaced by every
//! window whose title contains the pattern, so the last matching window
//! wins, and a list with no matching title still yields a deterministic
//! default. Selection fails only when the filtered list is empty.

use vstd::prelude::*;
use vstd::string::StrSliceExecFns;

use crate::config::WindowGeometry;
use crate::errors::SessionError;

verus! {

/// One enumerated on-screen window, as the platform reports it: the owning
/// application and the title can both be absent.
#[derive(Debug, PartialEq)]
pub struct CandidateWindow {
    /// Identifier of the owning application; absent for desktop-level
    /// pseudo-windows.
    pub owning_app: Option<String>,
    /// Display title; windows need not have one.
    pub title: Option<String>,
    /// Placement and size, in points.
    pub geometry: WindowGeometry,
}

/// The outcome of selection: which list entry was chosen, and its geometry,
/// which feeds stream configuration.
#[derive(Debug, Clone, Copy, PartialEq, Eq, Structural)]
pub struct SelectedWindow {
    /// Index of the chosen window in the enumerated list.
    pub index: usize,
    /// The chosen window's geometry.
    pub geometry: WindowGeometry,
}

/// `needle` occurs in `hay` starting at position `k`.
pub open spec fn match_at(hay: Seq<char>, needle: Seq<char>, k: int) -> bool {
    &&& 0 <= k
    &&& k + needle.len() <= hay.len()
    &&& hay.subrange(k, k + needle.len() as int) == needle
}

/// `needle` occurs contiguously somewhere in `hay` (case-sensitive).
pub open spec fn contains_seq(hay: Seq<char>, needle: Seq<char>) -> bool {
    exists|k: int| match_at(hay, needle, k)
}

/// The window survives filtering: it has an owning application.
pub open spec fn has_owner(w: CandidateWindow) -> bool {
    w.owning_app is Some
}

/// The window's title is present and contains the pattern.
pub open spec fn title_matches(w: CandidateWindow, pat: Seq<char>) -> bool {
    w.title matches Some(t) && contains_seq(t@, pat)
}

/// The window both survives filtering and matches the pattern.
pub open spec fn filtered_match(w: CandidateWindow, pat: Seq<char>) -> bool {
    has_owner(w) && title_matches(w, pat)
}

/// The index selection yields on a window list: the last filtered window
/// whose title matches the pattern, the first filtered window when none
/// matches, and nothing when filtering leaves the list empty.
pub open spec fn sel_idx(ws: Seq<CandidateWindow>, pat: Seq<char>) -> Option<int>
    decreases ws.len(),
{
    if ws.len() == 0 {
        None
    } else {
        let i = ws.len() - 1;
        if filtered_match(ws[i as int], pat) {
            Some(i as int)
        } else if sel_idx(ws.drop_last(), pat) is Some {
            sel_idx(ws.drop_last(), pat)
        } else if has_owner(ws[i as int]) {
            Some(i as int)
        } else {
            None
        }
    }
}

/// Selection succeeds exactly when some window survives filtering.
pub proof fn lemma_sel_some_iff(ws: Seq<CandidateWindow>, pat: Seq<char>)
    ensures
        sel_idx(ws, pat) is Some <==> exists|i: int| 0 <= i < ws.len() && has_owner(ws[i]),
    decreases ws.len(),
{
    if ws.len() > 0 {
        lemma_sel_some_iff(ws.drop_last(), pat);
        let last = ws.len() - 1;
        if sel_idx(ws, pat) is Some {
            if !has_owner(ws[last as int]) && !(sel_idx(ws.drop_last(), pat) is Some) {
            } else if has_owner(ws[last as int]) {
                assert(0 <= last < ws.len() && has_owner(ws[last as int]));
            } else {
                let j = choose|j: int|
                    0 <= j < ws.drop_last().len() && has_owner(ws.drop_last()[j]);
                assert(ws.drop_last()[j] == ws[j]);
            }
        } else {
            assert(forall|i: int|
                0 <= i < ws.drop_last().len() ==> ws.drop_last()[i] == ws[i]);
        }
    }
}

/// Every selected window comes from the filtered subset: it has an owning
/// application, and its index lies in the list.
pub proof fn lemma_selected_has_owner(ws: Seq<CandidateWindow>, pat: Seq<char>)
    ensures
        sel_idx(ws, pat) matches Some(i) ==> 0 <= i < ws.len() && has_owner(ws[i]),
    decreases ws.len(),
{
    if ws.len() > 0 {
        lemma_selected_has_owner(ws.drop_last(), pat);
        assert(forall|i: int|
            0 <= i < ws.drop_last().len() ==> ws.drop_last()[i] == ws[i]);
    }
}

/// When no filtered window's title matches the pattern, selection does not
/// fail but falls back to the first filtered window.
pub proof fn lemma_no_match_selects_first(ws: Seq<CandidateWindow>, pat: Seq<char>)
    requires
        forall|i: int| 0 <= i < ws.len() ==> !filtered_match(ws[i], pat),
    ensures
        sel_idx(ws, pat) matches Some(i) ==> has_owner(ws[i]) && forall|j: int|
            0 <= j < i ==> !has_owner(ws[j]),
    decreases ws.len(),
{
    if ws.len() > 0 {
        assert(forall|i: int|
            0 <= i < ws.drop_last().len() ==> ws.drop_last()[i] == ws[i]);
        lemma_no_match_selects_first(ws.drop_last(), pat);
        lemma_selected_has_owner(ws.drop_last(), pat);
        lemma_sel_some_iff(ws.drop_last(), pat);
    }
}

/// When some filtered window's title matches the pattern, selection returns
/// the last such window.
pub proof fn lemma_match_selects_last(ws: Seq<CandidateWindow>, pat: Seq<char>)
    requires
        exists|i: int| 0 <= i < ws.len() && filtered_match(ws[i], pat),
    ensures
        sel_idx(ws, pat) matches Some(i) && filtered_match(ws[i], pat) && forall|j: int|
            i < j < ws.len() ==> !filtered_match(ws[j], pat),
    decreases ws.len(),
{
    let last = ws.len() - 1;
    assert(forall|i: int|
        0 <= i < ws.drop_last().len() ==> ws.drop_last()[i] == ws[i]);
    if filtered_match(ws[last as int], pat) {
    } else {
        let w = choose|i: int| 0 <= i < ws.len() && filtered_match(ws[i], pat);
        assert(w < last);
        assert(filtered_match(ws.drop_last()[w], pat));
        lemma_match_selects_last(ws.drop_last(), pat);
        lemma_selected_has_owner(ws.drop_last(), pat);
        let i = sel_idx(ws.drop_last(), pat)->Some_0;
        assert(0 <= i < last);
        assert(sel_idx(ws, pat) == Some(i));
        assert(filtered_match(ws.drop_last()[i], pat));
        assert(filtered_match(ws[i], pat));
        assert(forall|j: int| i < j < last ==> !filtered_match(ws[j], pat));
    }
}

/// Whenever at least one window has an owning application, selection
/// succeeds and the chosen window comes from that filtered subset — never a
/// desktop pseudo-window.
pub proof fn lemma_selection_from_filtered(ws: Seq<CandidateWindow>, pat: Seq<char>)
    requires
        exists|i: int| 0 <= i < ws.len() && has_owner(ws[i]),
    ensures
        sel_idx(ws, pat) matches Some(i) && 0 <= i < ws.len() && has_owner(ws[i]),
{
    lemma_sel_some_iff(ws, pat);
    lemma_selected_has_owner(ws, pat);
}

/// When at least one window survives filtering but no filtered window's
/// title contains the pattern, selection does not fail: it yields the first
/// filtered window as the default choice.
pub proof fn lemma_default_choice(ws: Seq<CandidateWindow>, pat: Seq<char>)
    requires
        exists|i: int| 0 <= i < ws.len() && has_owner(ws[i]),
        forall|i: int| 0 <= i < ws.len() ==> !filtered_match(ws[i], pat),
    ensures
        sel_idx(ws, pat) matches Some(i) && has_owner(ws[i]) && forall|j: int|
            0 <= j < i ==> !has_owner(ws[j]),
{
    lemma_sel_some_iff(ws, pat);
    lemma_selected_has_owner(ws, pat);
    lemma_no_match_selects_first(ws, pat);
}

/// Whether `needle` occurs in `hay` starting exactly at `k`.
fn match_here(hay: &str, needle: &str, k: usize) -> (b: bool)
    requires
        k + needle@.len() <= hay@.len(),
        hay@.len() <= usize::MAX,
    ensures
        b == match_at(hay@, needle@, k as int),
{
    let m: usize = needle.unicode_len();
    let mut j: usize = 0;
    while j < m
        invariant
            j <= m,
            m == needle@.len(),
            k + m <= hay@.len(),
            hay@.len() <= usize::MAX,
            forall|jj: int| 0 <= jj < j ==> hay@[k + jj] == needle@[jj],
        decreases m - j,
    {
        if hay.get_char(k + j) != needle.get_char(j) {
            proof {
                assert(hay@.subrange(k as int, k + m as int).len() == m);
                assert(hay@.subrange(k as int, k + m as int)[j as int]
                    == hay@[k + j as int]);
            }
            return false;
        }
        j += 1;
    }
    proof {
        assert(hay@.subrange(k as int, k + m as int) =~= needle@);
    }
    true
}

/// Case-sensitive substring test: whether `needle` occurs contiguously in
/// `hay`. An empty needle occurs in every string.
pub fn str_contains(hay: &str, needle: &str) -> (b: bool)
    ensures
        b == contains_seq(hay@, needle@),
{
    let n: usize = hay.unicode_len();
    let m: usize = needle.unicode_len();
    if m == 0 {
        proof {
            assert(hay@.subrange(0, 0) =~= needle@);
            assert(match_at(hay@, needle@, 0));
        }
        return true;
    }
    if m > n {
        return false;
    }
    let end = n - m;
    let mut k: usize = 0;
    while k <= end
        invariant
            1 <= m <= n,
            end == n - m,
            n == hay@.len(),
            m == needle@.len(),
            k <= end + 1,
            forall|kk: int| 0 <= kk < k ==> !match_at(hay@, needle@, kk),
        decreases end + 1 - k,
    {
        if match_here(hay, needle, k) {
            return true;
        }
        k += 1;
    }
    false
}

/// Picks the capture target from the enumerated window list: drops windows
/// without an owning application, then takes the last remaining window whose
/// title contains `pattern`, or the first remaining window when no title
/// matches. Fails only when no window has an owning application.
pub fn select(candidates: &Vec<CandidateWindow>, pattern: &str) -> (r: Result<
    SelectedWindow,
    SessionError,
>)
    ensures
        r is Ok <==> sel_idx(candidates@, pattern@) is Some,
        r matches Ok(w) ==> Some(w.index as int) == sel_idx(candidates@, pattern@)
            && w.index < candidates@.len()
            && w.geometry == candidates@[w.index as int].geometry,
        r matches Err(e) ==> e == SessionError::NoCandidates,
{
    let ghost pat = pattern@;
    let n = candidates.len();
    let mut best: Option<usize> = None;
    let mut i: usize = 0;
    while i < n
        invariant
            n == candidates@.len(),
            i <= n,
            pat == pattern@,
            best is Some <==> sel_idx(candidates@.take(i as int), pat) is Some,
            best matches Some(b) ==> b < i
                && Some(b as int) == sel_idx(candidates@.take(i as int), pat),
        decreases n - i,
    {
        let w = &candidates[i];
        let has_app = w.owning_app.is_some();
        let matched = match &w.title {
            Option::Some(t) => str_contains(t.as_str(), pattern),
            Option::None => false,
        };
        proof {
            let pre = candidates@.take(i as int);
            let cur = candidates@.take(i + 1 as int);
            assert(cur.drop_last() =~= pre);
            assert(cur[i as int] == candidates@[i as int]);
            assert(matched == title_matches(candidates@[i as int], pat));
        }
        if has_app && matched {
            best = Some(i);
        } else if best.is_none() && has_app {
            best = Some(i);
        }
        i += 1;
    }
    proof {
        assert(candidates@.take(n as int) =~= candidates@);
    }
    match best {
        Option::Some(b) => Ok(SelectedWindow { index: b, geometry: candidates[b].geometry }),
        Option::None => Err(SessionError::NoCandidates),
    }
}

} // verus!
