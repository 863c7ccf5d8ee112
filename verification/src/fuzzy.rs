use vstd::prelude::*;
use vstd::utf8::encode_utf8;
use crate::text::{starts_with, lemma_encode_utf8_concat, chars_of, lowercase, is_alphanumeric, str_lowercase, char_alphanumeric};

verus! {

/// Where a left-to-right scan of the lowercased target stands: how many
/// query characters were matched, the score so far, the position of the
/// last match, and whether every read of the target's own characters was
/// in range.
pub struct Scan {
    pub qi: nat,
    pub score: int,
    pub prev: Option<int>,
    pub ok: bool,
}

/// The `i`-th character of the query, or a space past its end.
pub open spec fn query_char(q: Seq<char>, i: int) -> char {
    if 0 <= i < q.len() {
        q[i]
    } else {
        ' '
    }
}

/// The points a match at `ti` earns: one, five more right after the
/// previous match, three more at a word start, one more when the case is
/// exact.
pub open spec fn match_points(q: Seq<char>, t: Seq<char>, ti: int, qi: int, prev: Option<int>) -> int {
    1 + (if prev == Some(ti - 1) { 5int } else { 0int }) + (if ti == 0 || !char_alphanumeric(
        t[ti - 1],
    ) {
        3int
    } else {
        0int
    }) + (if t[ti] == query_char(q, qi) { 1int } else { 0int })
}

/// The scan after the first `n` characters of the lowercased target `tl`,
/// matching the lowercased query `ql` greedily.
pub open spec fn scan(q: Seq<char>, ql: Seq<char>, t: Seq<char>, tl: Seq<char>, n: nat) -> Scan
    decreases n,
{
    if n == 0 {
        Scan { qi: 0, score: 0, prev: None, ok: true }
    } else {
        let s = scan(q, ql, t, tl, (n - 1) as nat);
        let ti = n - 1;
        if !s.ok {
            s
        } else if s.qi < ql.len() && tl[ti] == ql[s.qi as int] {
            if ti >= t.len() {
                Scan { qi: s.qi, score: s.score, prev: s.prev, ok: false }
            } else {
                Scan {
                    qi: s.qi + 1,
                    score: s.score + match_points(q, t, ti, s.qi as int, s.prev),
                    prev: Some(ti),
                    ok: true,
                }
            }
        } else {
            s
        }
    }
}

/// `a - b` held to the range of `i32`, as `i32::saturating_sub` gives it.
pub open spec fn saturating_sub_i32(a: int, b: int) -> int {
    if a - b > i32::MAX {
        i32::MAX as int
    } else if a - b < i32::MIN {
        i32::MIN as int
    } else {
        a - b
    }
}

/// The score of a query against a target, from the query `q`, its
/// lowercase form `ql`, the target `t`, its lowercase form `tl` and the
/// target's length in UTF-8 bytes. `None` stands for the inputs on which the
/// scoring reads past the target's characters (lowercasing lengthened it)
/// or leaves the range of `i32`; `Some(None)` means the query is not a
/// subsequence; `Some(Some(s))` is the score.
pub open spec fn fuzzy_outcome(q: Seq<char>, ql: Seq<char>, t: Seq<char>, tl: Seq<char>, blen: int) -> Option<Option<i32>> {
    if q.len() == 0 {
        Some(Some(0i32))
    } else {
        let s = scan(q, ql, t, tl, tl.len());
        if !s.ok || s.score > i32::MAX {
            None
        } else if s.qi == ql.len() {
            let total = s.score + saturating_sub_i32(100, (blen as i32) as int);
            if total > i32::MAX {
                None
            } else {
                Some(Some(total as i32))
            }
        } else {
            Some(None)
        }
    }
}

/// The outcome of scoring `query` against `target`.
pub open spec fn fuzzy_outcome_str(query: Seq<char>, target: Seq<char>) -> Option<Option<i32>> {
    fuzzy_outcome(
        query,
        str_lowercase(query),
        target,
        str_lowercase(target),
        (encode_utf8(target).len() as usize) as int,
    )
}

/// Scoring `query` against `target` stays within the target's characters
/// and the range of `i32`.
pub open spec fn fuzzy_fits(query: Seq<char>, target: Seq<char>) -> bool {
    fuzzy_outcome_str(query, target) is Some
}

/// The score of `query` against `target`, on inputs where it fits.
pub open spec fn fuzzy_result(query: Seq<char>, target: Seq<char>) -> Option<i32> {
    fuzzy_outcome_str(query, target)->0
}

/// Later scans are no more valid and score no less than earlier ones.
pub proof fn lemma_scan_mono(q: Seq<char>, ql: Seq<char>, t: Seq<char>, tl: Seq<char>, m: nat, n: nat)
    requires
        m <= n <= tl.len(),
    ensures
        scan(q, ql, t, tl, n).ok ==> scan(q, ql, t, tl, m).ok,
        scan(q, ql, t, tl, n).score >= scan(q, ql, t, tl, m).score,
    decreases n - m,
{
    if m < n {
        lemma_scan_mono(q, ql, t, tl, m, (n - 1) as nat);
    }
}

/// Scores the query against the target from their characters and lowercase
/// forms; `None` where the scoring would read past the target's characters
/// or leave the range of `i32`.
pub fn score_chars(q: &[char], ql: &[char], t: &[char], tl: &[char], blen: usize) -> (r: Option<Option<i32>>)
    ensures
        r == fuzzy_outcome(q@, ql@, t@, tl@, blen as int),
{
    if q.len() == 0 {
        return Some(Some(0));
    }
    let mut qi: usize = 0;
    let mut score: i64 = 0;
    let mut prev: Option<usize> = None;
    let n = tl.len();
    let mut ti: usize = 0;
    while ti < n
        invariant
            n == tl@.len(),
            ti <= n,
            q@.len() > 0,
            scan(q@, ql@, t@, tl@, ti as nat).ok,
            scan(q@, ql@, t@, tl@, ti as nat).qi == qi,
            scan(q@, ql@, t@, tl@, ti as nat).score == score,
            scan(q@, ql@, t@, tl@, ti as nat).prev == (match prev {
                Some(p) => Some(p as int),
                None => None::<int>,
            }),
            0 <= score <= i32::MAX,
            qi <= ql@.len(),
            prev matches Some(p) ==> p < ti,
        decreases n - ti,
    {
        if qi < ql.len() && tl[ti] == ql[qi] {
            if ti >= t.len() {
                proof {
                    lemma_scan_mono(q@, ql@, t@, tl@, (ti + 1) as nat, n as nat);
                }
                return None;
            }
            let mut pts: i64 = 1;
            match prev {
                Some(p) => {
                    if ti == p + 1 {
                        pts = pts + 5;
                    }
                },
                None => {},
            }
            if ti == 0 || !is_alphanumeric(t[ti - 1]) {
                pts = pts + 3;
            }
            let qc = if qi < q.len() { q[qi] } else { ' ' };
            if t[ti] == qc {
                pts = pts + 1;
            }
            assert(pts == match_points(q@, t@, ti as int, qi as int, scan(q@, ql@, t@, tl@, ti as nat).prev));
            score = score + pts;
            prev = Some(ti);
            qi = qi + 1;
            if score > i32::MAX as i64 {
                proof {
                    lemma_scan_mono(q@, ql@, t@, tl@, (ti + 1) as nat, n as nat);
                }
                return None;
            }
        }
        ti = ti + 1;
    }
    if qi == ql.len() {
        let b: i32 = blen as i32;
        let bonus: i64 = 100i64 - (b as i64);
        let bonus: i64 = if bonus > i32::MAX as i64 {
            i32::MAX as i64
        } else if bonus < i32::MIN as i64 {
            i32::MIN as i64
        } else {
            bonus
        };
        let total = score + bonus;
        if total > i32::MAX as i64 {
            None
        } else {
            Some(Some(total as i32))
        }
    } else {
        Some(None)
    }
}

/// Scores `query` against `target`, from their characters, lowercase forms
/// and the target's byte length.
fn outcome(query: &str, target: &str) -> (r: Option<Option<i32>>)
    ensures
        r == fuzzy_outcome_str(query@, target@),
{
    let q = chars_of(query);
    let ql_s = lowercase(query);
    let ql = chars_of(ql_s.as_str());
    let t = chars_of(target);
    let tl_s = lowercase(target);
    let tl = chars_of(tl_s.as_str());
    let blen = target.len();
    score_chars(q.as_slice(), ql.as_slice(), t.as_slice(), tl.as_slice(), blen)
}

/// How well `query` fuzzily matches `target`: `None` when the lowercased
/// query is not a subsequence of the lowercased target, else a score that
/// rewards consecutive matches, matches at word starts, exact case and
/// short targets. An empty query scores 0.
pub fn fuzzy_score(query: &str, target: &str) -> (r: Option<i32>)
    requires
        fuzzy_fits(query@, target@),
    ensures
        r == fuzzy_result(query@, target@),
{
    if query.is_empty() {
        return Some(0);
    }
    let o = outcome(query, target);
    match o {
        Some(s) => s,
        None => None,
    }
}

/// Scores `query` against `target` where that fits (see `fuzzy_fits`), and
/// answers `None` where it does not.
pub fn checked_fuzzy_score(query: &str, target: &str) -> (r: Option<Option<i32>>)
    ensures
        r == fuzzy_outcome_str(query@, target@),
{
    let o = outcome(query, target);
    match o {
        Some(_) => Some(fuzzy_score(query, target)),
        None => None,
    }
}

} // verus!

verus! {

// ── What the score says: a match is a subsequence ─────────────────────

/// `a` occurs in `b` in order, not necessarily contiguously.
pub open spec fn is_subsequence(a: Seq<char>, b: Seq<char>) -> bool {
    exists|idx: Seq<int>|
        #![trigger idx.len()]
        idx.len() == a.len() && (forall|j: int, k: int| 0 <= j < k < idx.len() ==> idx[j] < idx[k]) && (
        forall|j: int| 0 <= j < idx.len() ==> 0 <= #[trigger] idx[j] < b.len() && b[idx[j]] == a[j])
}

/// How much of `a` a greedy left-to-right pass over the first `n`
/// characters of `b` matches.
pub open spec fn greedy(a: Seq<char>, b: Seq<char>, n: nat) -> nat
    decreases n,
{
    if n == 0 {
        0
    } else {
        let g = greedy(a, b, (n - 1) as nat);
        if g < a.len() && b[n - 1] == a[g as int] {
            g + 1
        } else {
            g
        }
    }
}

/// Where the greedy pass matched.
pub open spec fn greedy_positions(a: Seq<char>, b: Seq<char>, n: nat) -> Seq<int>
    decreases n,
{
    if n == 0 {
        Seq::<int>::empty()
    } else {
        let g = greedy(a, b, (n - 1) as nat);
        let w = greedy_positions(a, b, (n - 1) as nat);
        if g < a.len() && b[n - 1] == a[g as int] {
            w.push(n - 1)
        } else {
            w
        }
    }
}

/// The greedy positions are increasing matches, one per matched
/// character.
pub proof fn lemma_greedy_positions(a: Seq<char>, b: Seq<char>, n: nat)
    requires
        n <= b.len(),
    ensures
        greedy_positions(a, b, n).len() == greedy(a, b, n),
        greedy(a, b, n) <= a.len(),
        forall|j: int, k: int|
            0 <= j < k < greedy_positions(a, b, n).len() ==> greedy_positions(a, b, n)[j]
                < greedy_positions(a, b, n)[k],
        forall|j: int|
            0 <= j < greedy_positions(a, b, n).len() ==> 0 <= #[trigger] greedy_positions(a, b, n)[j] < n
                && b[greedy_positions(a, b, n)[j]] == a[j],
    decreases n,
{
    if n > 0 {
        lemma_greedy_positions(a, b, (n - 1) as nat);
    }
}

/// The greedy pass matches at least as much as any way of matching: if
/// the first `m` characters of `a` occur in order in `b` at `idx`, the pass
/// over the first `n` characters of `b` matches at least as many as `idx`
/// places below `n`.
pub proof fn lemma_greedy_dominates(a: Seq<char>, b: Seq<char>, idx: Seq<int>, n: nat, c: nat)
    requires
        n <= b.len(),
        idx.len() <= a.len(),
        forall|j: int, k: int| 0 <= j < k < idx.len() ==> idx[j] < idx[k],
        forall|j: int| 0 <= j < idx.len() ==> 0 <= #[trigger] idx[j] < b.len() && b[idx[j]] == a[j],
        c <= idx.len(),
        forall|j: int| 0 <= j < c ==> #[trigger] idx[j] < n,
    ensures
        greedy(a, b, n) >= c,
    decreases n,
{
    if n > 0 && c > 0 {
        if idx[c - 1] == n - 1 {
            assert forall|j: int| 0 <= j < c - 1 implies #[trigger] idx[j] < n - 1 by {
                assert(idx[j] < idx[c - 1]);
            }
            lemma_greedy_dominates(a, b, idx, (n - 1) as nat, (c - 1) as nat);
            let g = greedy(a, b, (n - 1) as nat);
            assert(greedy(a, b, n) >= g);
            if g == c - 1 {
                assert(b[idx[c - 1]] == a[c - 1]);
                assert(b[n - 1] == a[g as int]);
                assert(greedy(a, b, n) == g + 1);
            }
        } else {
            assert forall|j: int| 0 <= j < c implies #[trigger] idx[j] < n - 1 by {
                if j < c - 1 {
                    assert(idx[j] < idx[c - 1]);
                }
            }
            lemma_greedy_dominates(a, b, idx, (n - 1) as nat, c);
            assert(greedy(a, b, n) >= greedy(a, b, (n - 1) as nat));
        }
    } else if c > 0 {
        assert(idx[0] < n);
    }
}

/// The greedy pass matches all of `a` exactly when `a` is a subsequence
/// of `b`.
pub proof fn lemma_greedy_complete(a: Seq<char>, b: Seq<char>)
    ensures
        (greedy(a, b, b.len()) == a.len()) == is_subsequence(a, b),
{
    lemma_greedy_positions(a, b, b.len());
    if greedy(a, b, b.len()) == a.len() {
        let w = greedy_positions(a, b, b.len());
        assert(w.len() == a.len());
    }
    if is_subsequence(a, b) {
        let idx = choose|idx: Seq<int>|
            #![trigger idx.len()]
            idx.len() == a.len() && (forall|j: int, k: int| 0 <= j < k < idx.len() ==> idx[j] < idx[k]) && (
            forall|j: int| 0 <= j < idx.len() ==> 0 <= #[trigger] idx[j] < b.len() && b[idx[j]] == a[j]);
        lemma_greedy_dominates(a, b, idx, b.len(), idx.len());
    }
}

/// While the scan reads only in range, it matches as the greedy pass does.
pub proof fn lemma_scan_greedy(q: Seq<char>, ql: Seq<char>, t: Seq<char>, tl: Seq<char>, n: nat)
    requires
        n <= tl.len(),
        scan(q, ql, t, tl, n).ok,
    ensures
        scan(q, ql, t, tl, n).qi == greedy(ql, tl, n),
    decreases n,
{
    if n > 0 {
        lemma_scan_mono(q, ql, t, tl, (n - 1) as nat, n);
        lemma_scan_greedy(q, ql, t, tl, (n - 1) as nat);
    }
}

/// Where scoring fits, a non-empty query scores exactly when its lowercase
/// form is a subsequence of the target's lowercase form; an empty query
/// always scores 0.
pub proof fn law_fuzzy_matches_subsequence(query: Seq<char>, target: Seq<char>)
    requires
        fuzzy_fits(query, target),
    ensures
        query.len() == 0 ==> fuzzy_result(query, target) == Some(0i32),
        query.len() > 0 ==> (fuzzy_result(query, target) is Some <==> is_subsequence(
            str_lowercase(query),
            str_lowercase(target),
        )),
{
    let ql = str_lowercase(query);
    let tl = str_lowercase(target);
    if query.len() > 0 {
        lemma_scan_greedy(query, ql, target, tl, tl.len());
        lemma_greedy_complete(ql, tl);
    }
}

/// A match scores more for each matched character and never less than
/// the length bonus: with the greedy pass matching `k` characters, the
/// score is at least `k` above the bonus for the target's length.
pub proof fn law_fuzzy_score_floor(query: Seq<char>, target: Seq<char>)
    requires
        fuzzy_fits(query, target),
        query.len() > 0,
        fuzzy_result(query, target) is Some,
    ensures
        fuzzy_result(query, target)->0 >= str_lowercase(query).len() + saturating_sub_i32(
            100,
            (((encode_utf8(target).len() as usize) as int) as i32) as int,
        ),
{
    let ql = str_lowercase(query);
    let tl = str_lowercase(target);
    lemma_scan_score_floor(query, ql, target, tl, tl.len());
}

/// Each match adds at least one point.
pub proof fn lemma_scan_score_floor(q: Seq<char>, ql: Seq<char>, t: Seq<char>, tl: Seq<char>, n: nat)
    requires
        n <= tl.len(),
    ensures
        scan(q, ql, t, tl, n).score >= scan(q, ql, t, tl, n).qi,
    decreases n,
{
    if n > 0 {
        lemma_scan_score_floor(q, ql, t, tl, (n - 1) as nat);
    }
}

// ── Text after a full match ───────────────────────────────────────────

/// A scan over the start of a longer target, where it stays in range,
/// goes as over the start alone.
pub proof fn lemma_scan_prefix(
    q: Seq<char>,
    ql: Seq<char>,
    t: Seq<char>,
    tl: Seq<char>,
    u: Seq<char>,
    ul: Seq<char>,
    n: nat,
)
    requires
        n <= tl.len(),
        scan(q, ql, t, tl, n).ok,
    ensures
        scan(q, ql, t + u, tl + ul, n) == scan(q, ql, t, tl, n),
    decreases n,
{
    if n > 0 {
        lemma_scan_mono(q, ql, t, tl, (n - 1) as nat, n);
        lemma_scan_prefix(q, ql, t, tl, u, ul, (n - 1) as nat);
        let ti = n - 1;
        let s = scan(q, ql, t, tl, (n - 1) as nat);
        assert((tl + ul)[ti] == tl[ti]);
        if s.qi < ql.len() && tl[ti] == ql[s.qi as int] {
            assert(ti < t.len());
            assert((t + u)[ti] == t[ti]);
            if ti > 0 {
                assert((t + u)[ti - 1] == t[ti - 1]);
            }
            assert(match_points(q, t + u, ti, s.qi as int, s.prev) == match_points(q, t, ti, s.qi as int, s.prev));
        }
    }
}

/// Once the whole query is matched, the scan stays where it is.
pub proof fn lemma_scan_done(q: Seq<char>, ql: Seq<char>, t: Seq<char>, tl: Seq<char>, m: nat, n: nat)
    requires
        m <= n <= tl.len(),
        scan(q, ql, t, tl, m).qi == ql.len(),
    ensures
        scan(q, ql, t, tl, n) == scan(q, ql, t, tl, m),
    decreases n - m,
{
    if m < n {
        lemma_scan_done(q, ql, t, tl, m, (n - 1) as nat);
    }
}

/// Text appended after a full match earns nothing and lowers the score by
/// its length in UTF-8 bytes, where the joined text lowercases to something
/// that starts with the first part's lowercase form, and the joined text's
/// byte length stays within `i32`.
pub proof fn law_fuzzy_append(query: Seq<char>, t: Seq<char>, u: Seq<char>)
    requires
        query.len() > 0,
        fuzzy_fits(query, t),
        fuzzy_result(query, t) is Some,
        starts_with(str_lowercase(t + u), str_lowercase(t)),
        encode_utf8(t + u).len() <= i32::MAX,
    ensures
        fuzzy_fits(query, t + u),
        fuzzy_result(query, t + u) == Some((fuzzy_result(query, t)->0 - encode_utf8(u).len()) as i32),
{
    let ql = str_lowercase(query);
    let tl = str_lowercase(t);
    let ul = str_lowercase(t + u).skip(tl.len() as int);
    assert(str_lowercase(t + u) =~= tl + ul);
    let s = scan(query, ql, t, tl, tl.len());
    lemma_scan_prefix(query, ql, t, tl, u, ul, tl.len());
    lemma_scan_done(query, ql, t + u, tl + ul, tl.len(), (tl + ul).len());
    lemma_encode_utf8_concat(t, u);
    let b = encode_utf8(t).len();
    let b2 = encode_utf8(t + u).len();
    assert(b2 == b + encode_utf8(u).len());
    assert(((b as usize) as int) as i32 as int == b);
    assert(((b2 as usize) as int) as i32 as int == b2);
    assert(saturating_sub_i32(100, b as int) == 100 - b);
    assert(saturating_sub_i32(100, b2 as int) == 100 - b2);
    let s2 = scan(query, ql, t + u, tl + ul, (tl + ul).len());
    assert(s2 == s);
    assert(fuzzy_outcome_str(query, t) == fuzzy_outcome(query, ql, t, tl, (b as usize) as int));
    assert(fuzzy_outcome_str(query, t + u) == fuzzy_outcome(query, ql, t + u, tl + ul, (b2 as usize) as int));
    assert(s.ok && s.qi == ql.len());
    let total = s.score + (100 - b);
    let total2 = s.score + (100 - b2);
    lemma_scan_score_floor(query, ql, t, tl, tl.len());
    assert(s.score >= 0);
    assert(total <= i32::MAX);
    assert(total >= i32::MIN);
    assert(total2 >= i32::MIN && total2 <= total);
    assert(fuzzy_result(query, t) == Some(total as i32));
    assert((total as i32) as int == total);
    assert(fuzzy_result(query, t)->0 == total);
    assert(total2 == total - encode_utf8(u).len());
    assert(fuzzy_result(query, t + u) == Some(total2 as i32));
}

/// Each match earns at most ten points.
pub proof fn lemma_match_points_bound(q: Seq<char>, t: Seq<char>, ti: int, qi: int, prev: Option<int>)
    ensures
        1 <= match_points(q, t, ti, qi, prev) <= 10,
{
}

/// Where lowercasing keeps the target's character count, the scan never
/// reads past the target, and it scores at most ten points a character.
pub proof fn lemma_scan_in_range(q: Seq<char>, ql: Seq<char>, t: Seq<char>, tl: Seq<char>, n: nat)
    requires
        n <= tl.len(),
        tl.len() == t.len(),
    ensures
        scan(q, ql, t, tl, n).ok,
        0 <= scan(q, ql, t, tl, n).score <= 10 * n,
    decreases n,
{
    if n > 0 {
        lemma_scan_in_range(q, ql, t, tl, (n - 1) as nat);
        let s = scan(q, ql, t, tl, (n - 1) as nat);
        lemma_match_points_bound(q, t, n - 1, s.qi as int, s.prev);
    }
}

/// Scoring fits wherever lowercasing keeps the target's character count
/// and the target is short enough for its score and byte length to stay
/// within `i32`.
pub proof fn law_fuzzy_fits_when_count_kept(query: Seq<char>, target: Seq<char>)
    requires
        str_lowercase(target).len() == target.len(),
        10 * target.len() + 100 <= i32::MAX,
        encode_utf8(target).len() <= i32::MAX,
    ensures
        fuzzy_fits(query, target),
{
    let ql = str_lowercase(query);
    let tl = str_lowercase(target);
    lemma_scan_in_range(query, ql, target, tl, tl.len());
    let b = encode_utf8(target).len();
    assert(((b as usize) as int) as i32 as int == b);
    assert(saturating_sub_i32(100, b as int) == 100 - b);
}

// ── Any separator starts a word ───────────────────────────────────────

/// Two targets that differ only at position `j`, where both hold a
/// character that is not alphanumeric and that the scan never matches,
/// are scanned alike.
pub proof fn lemma_scan_separator(
    q: Seq<char>,
    ql: Seq<char>,
    t1: Seq<char>,
    t2: Seq<char>,
    tl: Seq<char>,
    j: int,
    n: nat,
)
    requires
        n <= tl.len(),
        t1.len() == t2.len(),
        0 <= j < t1.len(),
        forall|i: int| 0 <= i < t1.len() && i != j ==> t1[i] == t2[i],
        !char_alphanumeric(t1[j]),
        !char_alphanumeric(t2[j]),
        j < tl.len() ==> !ql.contains(tl[j]),
    ensures
        scan(q, ql, t1, tl, n) == scan(q, ql, t2, tl, n),
    decreases n,
{
    if n > 0 {
        lemma_scan_separator(q, ql, t1, t2, tl, j, (n - 1) as nat);
        let s = scan(q, ql, t1, tl, (n - 1) as nat);
        let ti = n - 1;
        if s.ok && s.qi < ql.len() && tl[ti] == ql[s.qi as int] {
            if ti == j {
                assert(ql.contains(tl[j]));
            }
            if ti < t1.len() {
                assert(t1[ti] == t2[ti]);
                if ti > 0 && ti - 1 != j {
                    assert(t1[ti - 1] == t2[ti - 1]);
                }
                assert(match_points(q, t1, ti, s.qi as int, s.prev) == match_points(q, t2, ti, s.qi as int, s.prev));
            }
        }
    }
}

/// A match right after any character that is not alphanumeric earns the
/// word-start bonus, as one after a space does: swapping one such
/// character of the target for another (neither being one the query can
/// match) leaves the outcome unchanged. So "K-Pop" and "K Pop" score the
/// same against "pop".
pub proof fn law_any_separator_starts_a_word(
    q: Seq<char>,
    ql: Seq<char>,
    t1: Seq<char>,
    t2: Seq<char>,
    tl: Seq<char>,
    blen: int,
    j: int,
)
    requires
        t1.len() == t2.len(),
        0 <= j < t1.len(),
        forall|i: int| 0 <= i < t1.len() && i != j ==> t1[i] == t2[i],
        !char_alphanumeric(t1[j]),
        !char_alphanumeric(t2[j]),
        j < tl.len() ==> !ql.contains(tl[j]),
    ensures
        fuzzy_outcome(q, ql, t1, tl, blen) == fuzzy_outcome(q, ql, t2, tl, blen),
{
    lemma_scan_separator(q, ql, t1, t2, tl, j, tl.len());
}

/// The word-start bonus: a match at the start of the target or right after
/// a character that is not alphanumeric earns three points more than the
/// same match right after an alphanumeric one.
pub proof fn law_word_start_bonus(
    q: Seq<char>,
    t1: Seq<char>,
    t2: Seq<char>,
    ti: int,
    qi: int,
    prev: Option<int>,
)
    requires
        0 < ti < t1.len(),
        t1.len() == t2.len(),
        forall|i: int| 0 <= i < t1.len() && i != ti - 1 ==> t1[i] == t2[i],
        !char_alphanumeric(t1[ti - 1]),
        char_alphanumeric(t2[ti - 1]),
        prev != Some(ti - 1),
    ensures
        match_points(q, t1, ti, qi, prev) == match_points(q, t2, ti, qi, prev) + 3,
{
    assert(t1[ti] == t2[ti]);
}

} // verus!
