use vstd::prelude::*;

verus! {

// ── Ranking by score ──────────────────────────────────────────────────

/// Item `a` comes before item `b`: it scores higher, or scores the same
/// and stands earlier.
pub open spec fn ranks_before(s: Seq<Option<i32>>, a: int, b: int) -> bool {
    s[a]->0 > s[b]->0 || (s[a]->0 == s[b]->0 && a < b)
}

/// `r` lists exactly the items that have a score, best first, ties in
/// the order of the list.
pub open spec fn is_ranking(s: Seq<Option<i32>>, r: Seq<usize>) -> bool {
    &&& forall|k: int| 0 <= k < r.len() ==> (r[k] as int) < s.len() && s[r[k] as int] is Some
    &&& forall|i: int| 0 <= i < s.len() && s[i] is Some ==> r.contains(i as usize)
    &&& forall|k: int, l: int| 0 <= k < l < r.len() ==> ranks_before(s, r[k] as int, r[l] as int)
}

/// The positions of the items that have a score, best score first, equal
/// scores in the order of the list (a stable sort by descending score).
#[verifier::spinoff_prover]
#[verifier::rlimit(40)]
pub fn rank_scores(s: &[Option<i32>]) -> (r: Vec<usize>)
    ensures
        is_ranking(s@, r@),
{
    let n = s.len();
    let mut r: Vec<usize> = Vec::new();
    let mut i: usize = 0;
    while i < n
        invariant
            i <= n,
            n == s@.len(),
            forall|k: int| 0 <= k < r@.len() ==> (r@[k] as int) < i && s@[r@[k] as int] is Some,
            forall|j: int| 0 <= j < i && s@[j] is Some ==> r@.contains(j as usize),
            forall|k: int, l: int| 0 <= k < l < r@.len() ==> ranks_before(s@, r@[k] as int, r@[l] as int),
        decreases n - i,
    {
        match s[i] {
            Some(v) => {
                let mut pos: usize = 0;
                while pos < r.len() && s[r[pos]].unwrap() >= v
                    invariant
                        pos <= r@.len(),
                        i < n,
                        n == s@.len(),
                        s@[i as int] == Some(v),
                        forall|k: int| 0 <= k < r@.len() ==> (r@[k] as int) < i && s@[r@[k] as int] is Some,
                        forall|k: int| 0 <= k < pos ==> s@[r@[k] as int]->0 >= v,
                    decreases r@.len() - pos,
                {
                    pos = pos + 1;
                }
                let ghost old_r = r@;
                assert forall|l: int| pos <= l < old_r.len() implies s@[old_r[l] as int]->0 < v by {
                    if pos < l {
                        assert(ranks_before(s@, old_r[pos as int] as int, old_r[l] as int));
                    }
                }
                r.insert(pos, i);
                assert(r@ =~= old_r.insert(pos as int, i));
                assert forall|k: int| 0 <= k < r@.len() implies (r@[k] as int) < i + 1 && s@[r@[k] as int] is Some by {
                    if k < pos {
                        assert(r@[k] == old_r[k]);
                    } else if k > pos {
                        assert(r@[k] == old_r[k - 1]);
                    }
                }
                assert forall|j: int| 0 <= j < i + 1 && s@[j] is Some implies r@.contains(j as usize) by {
                    if j == i {
                        assert(r@[pos as int] == i);
                    } else {
                        assert(old_r.contains(j as usize));
                        let k = choose|k: int| 0 <= k < old_r.len() && old_r[k] == j as usize;
                        if k < pos {
                            assert(r@[k] == j as usize);
                        } else {
                            assert(r@[k + 1] == j as usize);
                        }
                    }
                }
                assert forall|k: int, l: int| 0 <= k < l < r@.len() implies ranks_before(s@, r@[k] as int, r@[l] as int) by {
                    if l < pos {
                        assert(r@[k] == old_r[k] && r@[l] == old_r[l]);
                    } else if l == pos {
                        assert(r@[k] == old_r[k]);
                    } else if k < pos {
                        assert(r@[k] == old_r[k] && r@[l] == old_r[l - 1]);
                    } else if k == pos {
                        assert(r@[l] == old_r[l - 1]);
                    } else {
                        assert(r@[k] == old_r[k - 1] && r@[l] == old_r[l - 1]);
                    }
                }
            },
            None => {},
        }
        i = i + 1;
    }
    r
}

} // verus!

verus! {

// ── Sorting by text ───────────────────────────────────────────────────

/// `a` sorts strictly before `b`, character by character (by code point, which is also the
/// order of their UTF-8 bytes),
/// a proper prefix first.
pub open spec fn lex_lt(a: Seq<char>, b: Seq<char>) -> bool
    decreases a.len(),
{
    if a.len() == 0 {
        b.len() > 0
    } else if b.len() == 0 {
        false
    } else if a[0] == b[0] {
        lex_lt(a.drop_first(), b.drop_first())
    } else {
        a[0] < b[0]
    }
}

/// No text sorts before itself, and two texts are never each before the
/// other.
pub proof fn lemma_lex_asym(a: Seq<char>, b: Seq<char>)
    ensures
        lex_lt(a, b) ==> !lex_lt(b, a),
        !lex_lt(a, a),
    decreases a.len(),
{
    if a.len() > 0 && b.len() > 0 {
        lemma_lex_asym(a.drop_first(), b.drop_first());
    }
    if a.len() > 0 {
        lemma_lex_asym(a.drop_first(), a.drop_first());
    }
}

/// Sorting before is transitive.
pub proof fn lemma_lex_trans(a: Seq<char>, b: Seq<char>, c: Seq<char>)
    requires
        lex_lt(a, b),
        lex_lt(b, c),
    ensures
        lex_lt(a, c),
    decreases a.len(),
{
    if a.len() > 0 && b.len() > 0 && c.len() > 0 {
        if a[0] == b[0] && b[0] == c[0] {
            lemma_lex_trans(a.drop_first(), b.drop_first(), c.drop_first());
        }
    }
}

/// Of two texts, one sorts before the other, or they are equal.
pub proof fn lemma_lex_total(a: Seq<char>, b: Seq<char>)
    ensures
        lex_lt(a, b) || lex_lt(b, a) || a == b,
    decreases a.len(),
{
    if a.len() > 0 && b.len() > 0 {
        lemma_lex_total(a.drop_first(), b.drop_first());
        if a[0] == b[0] && a.drop_first() == b.drop_first() {
            assert(a =~= seq![a[0]] + a.drop_first());
            assert(b =~= seq![b[0]] + b.drop_first());
        }
    } else if a.len() == 0 && b.len() == 0 {
        assert(a =~= b);
    }
}

/// Whether `a` sorts strictly before `b`.
pub fn lex_less(a: &[char], b: &[char]) -> (r: bool)
    ensures
        r == lex_lt(a@, b@),
{
    let mut i: usize = 0;
    assert(a@.skip(0) =~= a@ && b@.skip(0) =~= b@);
    while i < a.len() && i < b.len() && a[i] == b[i]
        invariant
            i <= a@.len(),
            i <= b@.len(),
            lex_lt(a@, b@) == lex_lt(a@.skip(i as int), b@.skip(i as int)),
        decreases a@.len() - i,
    {
        assert(a@.skip(i as int).drop_first() =~= a@.skip(i + 1));
        assert(b@.skip(i as int).drop_first() =~= b@.skip(i + 1));
        i = i + 1;
    }
    if i == a.len() {
        i < b.len()
    } else if i == b.len() {
        false
    } else {
        a[i] < b[i]
    }
}

/// Item `a` sorts before item `b`: its key sorts before, or the keys are
/// equal and it stands earlier.
pub open spec fn sorts_before(keys: Seq<Seq<char>>, a: int, b: int) -> bool {
    lex_lt(keys[a], keys[b]) || (keys[a] == keys[b] && a < b)
}

/// `r` lists every item once, in ascending order of key, equal keys in
/// the order of the list.
pub open spec fn is_key_order(keys: Seq<Seq<char>>, r: Seq<usize>) -> bool {
    &&& forall|k: int| 0 <= k < r.len() ==> (r[k] as int) < keys.len()
    &&& forall|i: int| 0 <= i < keys.len() ==> #[trigger] r.contains(i as usize)
    &&& forall|k: int, l: int| 0 <= k < l < r.len() ==> sorts_before(keys, r[k] as int, r[l] as int)
}

/// The views of some keys.
pub open spec fn key_views(v: Seq<Vec<char>>) -> Seq<Seq<char>> {
    v.map_values(|x: Vec<char>| x@)
}

/// The positions of the items in ascending order of their keys, equal keys
/// in the order of the list (a stable sort).
#[verifier::spinoff_prover]
#[verifier::rlimit(40)]
pub fn key_order(keys: &Vec<Vec<char>>) -> (r: Vec<usize>)
    ensures
        is_key_order(key_views(keys@), r@),
{
    let ghost ks = key_views(keys@);
    let n = keys.len();
    let mut r: Vec<usize> = Vec::new();
    let mut i: usize = 0;
    while i < n
        invariant
            i <= n,
            n == keys@.len(),
            ks == key_views(keys@),
            forall|k: int| 0 <= k < r@.len() ==> (r@[k] as int) < i,
            forall|j: int| 0 <= j < i ==> #[trigger] r@.contains(j as usize),
            forall|k: int, l: int| 0 <= k < l < r@.len() ==> sorts_before(ks, r@[k] as int, r@[l] as int),
        decreases n - i,
    {
        let mut pos: usize = 0;
        while pos < r.len() && !lex_less(keys[i].as_slice(), keys[r[pos]].as_slice())
            invariant
                pos <= r@.len(),
                i < n,
                n == keys@.len(),
                ks == key_views(keys@),
                forall|k: int| 0 <= k < r@.len() ==> (r@[k] as int) < i,
                forall|k: int| 0 <= k < pos ==> !lex_lt(ks[i as int], ks[r@[k] as int]),
            decreases r@.len() - pos,
        {
            assert(ks[i as int] == keys@[i as int]@);
            assert(ks[r@[pos as int] as int] == keys@[r@[pos as int] as int]@);
            pos = pos + 1;
        }
        let ghost old_r = r@;
        proof {
            if pos < old_r.len() {
                assert(ks[i as int] == keys@[i as int]@);
                assert(ks[old_r[pos as int] as int] == keys@[old_r[pos as int] as int]@);
            }
        }
        assert forall|l: int| pos <= l < old_r.len() implies lex_lt(ks[i as int], ks[old_r[l] as int]) by {
            if pos < l {
                assert(sorts_before(ks, old_r[pos as int] as int, old_r[l] as int));
                if lex_lt(ks[old_r[pos as int] as int], ks[old_r[l] as int]) {
                    lemma_lex_trans(ks[i as int], ks[old_r[pos as int] as int], ks[old_r[l] as int]);
                }
            }
        }
        assert forall|k: int| 0 <= k < pos implies sorts_before(ks, old_r[k] as int, i as int) by {
            lemma_lex_total(ks[i as int], ks[old_r[k] as int]);
        }
        r.insert(pos, i);
        assert(r@ =~= old_r.insert(pos as int, i));
        assert forall|k: int| 0 <= k < r@.len() implies (r@[k] as int) < i + 1 by {
            if k < pos {
                assert(r@[k] == old_r[k]);
            } else if k > pos {
                assert(r@[k] == old_r[k - 1]);
            }
        }
        assert forall|j: int| 0 <= j < i + 1 implies #[trigger] r@.contains(j as usize) by {
            if j == i {
                assert(r@[pos as int] == i);
            } else {
                assert(old_r.contains(j as usize));
                let k = choose|k: int| 0 <= k < old_r.len() && old_r[k] == j as usize;
                if k < pos {
                    assert(r@[k] == j as usize);
                } else {
                    assert(r@[k + 1] == j as usize);
                }
            }
        }
        assert forall|k: int, l: int| 0 <= k < l < r@.len() implies sorts_before(ks, r@[k] as int, r@[l] as int) by {
            if l < pos {
                assert(r@[k] == old_r[k] && r@[l] == old_r[l]);
            } else if l == pos {
                assert(r@[k] == old_r[k]);
            } else if k < pos {
                assert(r@[k] == old_r[k] && r@[l] == old_r[l - 1]);
            } else if k == pos {
                assert(r@[l] == old_r[l - 1]);
            } else {
                assert(r@[k] == old_r[k - 1] && r@[l] == old_r[l - 1]);
            }
        }
        i = i + 1;
    }
    r
}

} // verus!

verus! {

// ── Orders are determined ─────────────────────────────────────────────

/// `r` lists the members once each, in strictly ascending order of
/// `before`.
pub open spec fn lists_in_order(before: spec_fn(int, int) -> bool, member: spec_fn(int) -> bool, r: Seq<usize>) -> bool {
    &&& forall|k: int| 0 <= k < r.len() ==> #[trigger] member(r[k] as int)
    &&& forall|x: int| #[trigger] member(x) ==> 0 <= x <= usize::MAX && r.contains(x as usize)
    &&& forall|k: int, l: int| 0 <= k < l < r.len() ==> before(r[k] as int, r[l] as int)
}

/// Two listings of the same members in the ascending order of an
/// asymmetric relation are the same listing.
pub proof fn lemma_listing_unique(
    before: spec_fn(int, int) -> bool,
    member: spec_fn(int) -> bool,
    r1: Seq<usize>,
    r2: Seq<usize>,
)
    requires
        forall|a: int, b: int| #[trigger] before(a, b) ==> !before(b, a),
        lists_in_order(before, member, r1),
        lists_in_order(before, member, r2),
    ensures
        r1 == r2,
    decreases r1.len(),
{
    if r1.len() == 0 {
        if r2.len() > 0 {
            assert(member(r2[0] as int));
            assert(r1.contains(r2[0]));
        }
        assert(r1 =~= r2);
    } else {
        let a = r1[0];
        assert(member(a as int));
        assert(r2.contains(a));
        let b = r2[0];
        assert(member(b as int));
        assert(r1.contains(b));
        if a != b {
            let i = choose|i: int| 0 <= i < r1.len() && r1[i] == b;
            let j = choose|j: int| 0 <= j < r2.len() && r2[j] == a;
            assert(i > 0 && j > 0);
            assert(before(a as int, b as int));
            assert(before(b as int, a as int));
        }
        let m2 = |x: int| member(x) && x != a as int;
        let t1 = r1.drop_first();
        let t2 = r2.drop_first();
        assert forall|k: int| 0 <= k < t1.len() implies #[trigger] m2(t1[k] as int) by {
            assert(before(r1[0] as int, r1[k + 1] as int));
            assert(member(r1[k + 1] as int));
        }
        assert forall|k: int| 0 <= k < t2.len() implies #[trigger] m2(t2[k] as int) by {
            assert(before(r2[0] as int, r2[k + 1] as int));
            assert(member(r2[k + 1] as int));
        }
        assert forall|x: int| #[trigger] m2(x) implies 0 <= x <= usize::MAX && t1.contains(x as usize) by {
            assert(member(x));
            let k = choose|k: int| 0 <= k < r1.len() && r1[k] == x as usize;
            assert(k != 0);
            assert(t1[k - 1] == x as usize);
        }
        assert forall|x: int| #[trigger] m2(x) implies 0 <= x <= usize::MAX && t2.contains(x as usize) by {
            assert(member(x));
            let k = choose|k: int| 0 <= k < r2.len() && r2[k] == x as usize;
            assert(k != 0);
            assert(t2[k - 1] == x as usize);
        }
        assert forall|k: int, l: int| 0 <= k < l < t1.len() implies before(t1[k] as int, t1[l] as int) by {
            assert(before(r1[k + 1] as int, r1[l + 1] as int));
        }
        assert forall|k: int, l: int| 0 <= k < l < t2.len() implies before(t2[k] as int, t2[l] as int) by {
            assert(before(r2[k + 1] as int, r2[l + 1] as int));
        }
        lemma_listing_unique(before, m2, t1, t2);
        assert(r1 =~= seq![a] + t1);
        assert(r2 =~= seq![b] + t2);
    }
}

/// The ranking of a list of scores is determined by the scores: two
/// rankings of the same scores are equal.
pub proof fn law_ranking_unique(s: Seq<Option<i32>>, r1: Seq<usize>, r2: Seq<usize>)
    requires
        s.len() <= usize::MAX,
        is_ranking(s, r1),
        is_ranking(s, r2),
    ensures
        r1 == r2,
{
    let before = |a: int, b: int| ranks_before(s, a, b);
    let member = |x: int| 0 <= x < s.len() && s[x] is Some;
    assert(lists_in_order(before, member, r1));
    assert(lists_in_order(before, member, r2));
    lemma_listing_unique(before, member, r1, r2);
}

/// The sorted order of a list of keys is determined by the keys.
pub proof fn law_key_order_unique(keys: Seq<Seq<char>>, r1: Seq<usize>, r2: Seq<usize>)
    requires
        keys.len() <= usize::MAX,
        is_key_order(keys, r1),
        is_key_order(keys, r2),
    ensures
        r1 == r2,
{
    let before = |a: int, b: int| sorts_before(keys, a, b);
    let member = |x: int| 0 <= x < keys.len();
    assert forall|a: int, b: int| #[trigger] before(a, b) implies !before(b, a) by {
        lemma_lex_asym(keys[a], keys[b]);
    }
    assert(lists_in_order(before, member, r1));
    assert(lists_in_order(before, member, r2));
    lemma_listing_unique(before, member, r1, r2);
}

} // verus!
