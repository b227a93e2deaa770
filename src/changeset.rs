use vstd::prelude::*;

verus! {

/// Strict lexicographic order on character sequences, comparing characters by
/// their scalar values; this is the order of `String`'s `Ord`.
pub open spec fn lex_lt(a: Seq<char>, b: Seq<char>) -> bool
    decreases a.len(),
{
    if a.len() == 0 {
        b.len() > 0
    } else if b.len() == 0 {
        false
    } else if a[0] != b[0] {
        a[0] < b[0]
    } else {
        lex_lt(a.drop_first(), b.drop_first())
    }
}

/// Compares two strings in the order of `lex_lt`.
pub fn str_lt(a: &str, b: &str) -> (r: bool)
    ensures
        r == lex_lt(a@, b@),
{
    let la = a.unicode_len();
    let lb = b.unicode_len();
    let mut i: usize = 0;
    assert(a@.skip(0) =~= a@);
    assert(b@.skip(0) =~= b@);
    while i < la && i < lb
        invariant
            la == a@.len(),
            lb == b@.len(),
            i <= la,
            i <= lb,
            lex_lt(a@, b@) == lex_lt(a@.skip(i as int), b@.skip(i as int)),
        decreases la - i,
    {
        let ca = a.get_char(i);
        let cb = b.get_char(i);
        if ca != cb {
            assert(a@.skip(i as int)[0] == ca);
            assert(b@.skip(i as int)[0] == cb);
            return ca < cb;
        }
        assert(a@.skip(i as int).drop_first() =~= a@.skip(i + 1));
        assert(b@.skip(i as int).drop_first() =~= b@.skip(i + 1));
        i = i + 1;
    }
    i < lb
}


/// The views of a list of strings.
pub open spec fn views(v: Seq<String>) -> Seq<Seq<char>> {
    v.map_values(|s: String| s@)
}

/// Every element precedes the next one in `lex_lt`, so no element repeats.
pub open spec fn strictly_sorted(s: Seq<Seq<char>>) -> bool {
    forall|i: int, j: int| 0 <= i < j < s.len() ==> lex_lt(#[trigger] s[i], #[trigger] s[j])
}

pub proof fn lemma_lex_irreflexive(a: Seq<char>)
    ensures
        !lex_lt(a, a),
    decreases a.len(),
{
    if a.len() > 0 {
        lemma_lex_irreflexive(a.drop_first());
    }
}

pub proof fn lemma_lex_transitive(a: Seq<char>, b: Seq<char>, c: Seq<char>)
    requires
        lex_lt(a, b),
        lex_lt(b, c),
    ensures
        lex_lt(a, c),
    decreases a.len(),
{
    if a.len() > 0 && a[0] == b[0] && b[0] == c[0] {
        lemma_lex_transitive(a.drop_first(), b.drop_first(), c.drop_first());
    }
}

pub proof fn lemma_lex_total(a: Seq<char>, b: Seq<char>)
    requires
        a != b,
    ensures
        lex_lt(a, b) || lex_lt(b, a),
    decreases a.len(),
{
    if a.len() > 0 && b.len() > 0 {
        if a[0] == b[0] {
            if a.drop_first() == b.drop_first() {
                assert(a =~= seq![a[0]] + a.drop_first());
                assert(b =~= seq![b[0]] + b.drop_first());
            }
            lemma_lex_total(a.drop_first(), b.drop_first());
        }
    } else if a.len() == 0 && b.len() == 0 {
        assert(a =~= b);
    }
}

pub proof fn lemma_lex_asymmetric(a: Seq<char>, b: Seq<char>)
    requires
        lex_lt(a, b),
    ensures
        !lex_lt(b, a),
{
    if lex_lt(b, a) {
        lemma_lex_transitive(a, b, a);
        lemma_lex_irreflexive(a);
    }
}

pub proof fn lemma_sorted_unique(s: Seq<Seq<char>>, t: Seq<Seq<char>>)
    requires
        strictly_sorted(s),
        strictly_sorted(t),
        forall|x: Seq<char>| s.contains(x) <==> t.contains(x),
    ensures
        s == t,
    decreases s.len(),
{
    if s.len() == 0 {
        if t.len() > 0 {
            assert(t.contains(t[0]));
        }
        assert(s =~= t);
    } else {
        assert(s.contains(s[0]));
        let j = choose|j: int| 0 <= j < t.len() && t[j] == s[0];
        assert(t.contains(t[0]));
        let i = choose|i: int| 0 <= i < s.len() && s[i] == t[0];
        if s[0] != t[0] {
            assert(i > 0 && j > 0);
            lemma_lex_asymmetric(s[0], s[i]);
        }
        let s1 = s.drop_first();
        let t1 = t.drop_first();
        assert forall|x: Seq<char>| s1.contains(x) <==> t1.contains(x) by {
            if s1.contains(x) {
                let k = choose|k: int| 0 <= k < s1.len() && s1[k] == x;
                assert(s[k + 1] == x);
                lemma_lex_irreflexive(x);
                assert(s.contains(x));
                let m = choose|m: int| 0 <= m < t.len() && t[m] == x;
                assert(m != 0);
                assert(t1[m - 1] == x);
            }
            if t1.contains(x) {
                let k = choose|k: int| 0 <= k < t1.len() && t1[k] == x;
                assert(t[k + 1] == x);
                lemma_lex_irreflexive(x);
                assert(t.contains(x));
                let m = choose|m: int| 0 <= m < s.len() && s[m] == x;
                assert(m != 0);
                assert(s1[m - 1] == x);
            }
        }
        assert(strictly_sorted(s1)) by {
            assert forall|a: int, b: int| 0 <= a < b < s1.len() implies lex_lt(s1[a], s1[b]) by {
                assert(s1[a] == s[a + 1] && s1[b] == s[b + 1]);
            }
        }
        assert(strictly_sorted(t1)) by {
            assert forall|a: int, b: int| 0 <= a < b < t1.len() implies lex_lt(t1[a], t1[b]) by {
                assert(t1[a] == t[a + 1] && t1[b] == t[b + 1]);
            }
        }
        lemma_sorted_unique(s1, t1);
        assert(s =~= seq![s[0]] + s1);
        assert(t =~= seq![t[0]] + t1);
    }
}

/// The position of the first element of `v` that does not precede `p`.
fn sorted_position(v: &Vec<String>, p: &str) -> (k: usize)
    ensures
        k <= v@.len(),
        forall|i: int| 0 <= i < k ==> lex_lt(#[trigger] v@[i]@, p@),
        k < v@.len() ==> !lex_lt(v@[k as int]@, p@),
{
    let mut k: usize = 0;
    while k < v.len() && str_lt(v[k].as_str(), p)
        invariant
            k <= v@.len(),
            forall|i: int| 0 <= i < k ==> lex_lt(#[trigger] v@[i]@, p@),
        decreases v@.len() - k,
    {
        k = k + 1;
    }
    k
}

/// Adds `p` to a strictly sorted list unless it is already there.
pub fn insert_sorted(v: &mut Vec<String>, p: &String)
    requires
        strictly_sorted(views(old(v)@)),
    ensures
        strictly_sorted(views(final(v)@)),
        forall|x: Seq<char>|
            #[trigger] views(final(v)@).contains(x) <==> (views(old(v)@).contains(x) || x == p@),
{
    let k = sorted_position(v, p.as_str());
    if k < v.len() && v[k] == *p {
        assert(views(v@)[k as int] == p@);
        return;
    }
    let ghost s = views(v@);
    proof {
        if k < s.len() {
            lemma_lex_total(s[k as int], p@);
        }
    }
    v.insert(k, p.clone());
    let ghost s2 = views(v@);
    assert(s2 =~= s.insert(k as int, p@));
    assert forall|i: int, j: int| 0 <= i < j < s2.len() implies lex_lt(s2[i], s2[j]) by {
        if j < k {
        } else if i > k {
            assert(s2[i] == s[i - 1] && s2[j] == s[j - 1]);
        } else if i == k {
            if j - 1 > k {
                lemma_lex_transitive(p@, s[k as int], s[j - 1]);
            }
        } else if j == k {
        } else {
            assert(s2[j] == s[j - 1]);
            if j - 1 > k {
                lemma_lex_transitive(p@, s[k as int], s[j - 1]);
            }
            lemma_lex_transitive(s[i], p@, s[j - 1]);
        }
    }
    assert forall|x: Seq<char>| #[trigger] s2.contains(x) <==> (s.contains(x) || x == p@) by {
        if s2.contains(x) {
            let m = choose|m: int| 0 <= m < s2.len() && s2[m] == x;
            if m < k {
                assert(s[m] == x);
            } else if m > k {
                assert(s[m - 1] == x);
            }
        }
        if s.contains(x) {
            let m = choose|m: int| 0 <= m < s.len() && s[m] == x;
            if m < k {
                assert(s2[m] == x);
            } else {
                assert(s2[m + 1] == x);
            }
        }
        if x == p@ {
            assert(s2[k as int] == x);
        }
    }
}

/// Adds each of `paths` to a strictly sorted list, skipping those already there.
pub fn insert_all_sorted(v: &mut Vec<String>, paths: &Vec<String>)
    requires
        strictly_sorted(views(old(v)@)),
    ensures
        strictly_sorted(views(final(v)@)),
        forall|x: Seq<char>|
            #[trigger] views(final(v)@).contains(x) <==> (views(old(v)@).contains(x) || views(
                paths@,
            ).contains(x)),
{
    let ghost s0 = views(v@);
    let mut i: usize = 0;
    while i < paths.len()
        invariant
            i <= paths@.len(),
            strictly_sorted(views(v@)),
            forall|x: Seq<char>|
                #[trigger] views(v@).contains(x) <==> (s0.contains(x) || views(
                    paths@.subrange(0, i as int),
                ).contains(x)),
        decreases paths@.len() - i,
    {
        insert_sorted(v, &paths[i]);
        let ghost pre = views(paths@.subrange(0, i as int));
        let ghost post = views(paths@.subrange(0, i + 1));
        assert(post =~= pre.push(paths@[i as int]@));
        assert forall|x: Seq<char>| post.contains(x) <==> (pre.contains(x) || x == paths@[i as int]@) by {
            if post.contains(x) {
                let m = choose|m: int| 0 <= m < post.len() && post[m] == x;
                if m < pre.len() {
                    assert(pre[m] == x);
                }
            }
            if pre.contains(x) {
                let m = choose|m: int| 0 <= m < pre.len() && pre[m] == x;
                assert(post[m] == x);
            }
            if x == paths@[i as int]@ {
                assert(post[i as int] == x);
            }
        }
        i = i + 1;
    }
    assert(paths@.subrange(0, i as int) =~= paths@);
}

} // verus!
