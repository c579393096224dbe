//! Names put in order: each distinct name once, ascending.

use vstd::prelude::*;
use crate::text::{text_less, less_than, lemma_text_less_total};

verus! {

/// `s` with `x` put in its place, if `s` does not hold it already.
pub open spec fn insert_name(x: Seq<char>, s: Seq<Seq<char>>) -> Seq<Seq<char>>
    decreases s.len(),
{
    if s.len() == 0 {
        seq![x]
    } else if x == s[0] {
        s
    } else if text_less(x, s[0]) {
        seq![x] + s
    } else {
        seq![s[0]] + insert_name(x, s.drop_first())
    }
}

/// The distinct names of `names`, in ascending order.
pub open spec fn sorted_names(names: Seq<Seq<char>>) -> Seq<Seq<char>>
    decreases names.len(),
{
    if names.len() == 0 {
        Seq::empty()
    } else {
        insert_name(names.last(), sorted_names(names.drop_last()))
    }
}

/// Each name comes strictly before the next.
pub open spec fn strictly_ascending(s: Seq<Seq<char>>) -> bool {
    forall|i: int| 0 <= i < s.len() - 1 ==> text_less(#[trigger] s[i], s[i + 1])
}

proof fn lemma_insert_at(x: Seq<char>, s: Seq<Seq<char>>, p: int)
    requires
        0 <= p <= s.len(),
        forall|k: int| 0 <= k < p ==> s[k] != x && !text_less(x, #[trigger] s[k]),
        p < s.len() ==> s[p] == x || text_less(x, s[p]),
    ensures
        p < s.len() && s[p] == x ==> insert_name(x, s) == s,
        !(p < s.len() && s[p] == x) ==> insert_name(x, s) == s.insert(p, x),
    decreases p,
{
    if p == 0 {
        if s.len() > 0 && s[0] != x {
            assert(seq![x] + s =~= s.insert(0, x));
        }
        if s.len() == 0 {
            assert(seq![x] =~= s.insert(0, x));
        }
    } else {
        let t = s.drop_first();
        assert forall|k: int| 0 <= k < p - 1 implies t[k] != x && !text_less(x, #[trigger] t[k]) by {
            assert(t[k] == s[k + 1]);
        }
        lemma_insert_at(x, t, p - 1);
        assert(s[0] != x && !text_less(x, s[0]));
        if !(p < s.len() && s[p] == x) {
            assert(seq![s[0]] + t.insert(p - 1, x) =~= s.insert(p, x));
        } else {
            assert(seq![s[0]] + t =~= s);
        }
    }
}

/// Putting a name in its place keeps the order and adds just that name.
pub proof fn lemma_insert_name(x: Seq<char>, s: Seq<Seq<char>>)
    requires
        strictly_ascending(s),
    ensures
        strictly_ascending(insert_name(x, s)),
        forall|y: Seq<char>| #[trigger] insert_name(x, s).contains(y) <==> (y == x || s.contains(y)),
        insert_name(x, s).len() > 0,
        s.len() > 0 ==> insert_name(x, s)[0] == x || insert_name(x, s)[0] == s[0],
    decreases s.len(),
{
    if s.len() == 0 {
        assert forall|y: Seq<char>| #[trigger] insert_name(x, s).contains(y) <==> (y == x || s.contains(y)) by {
            if insert_name(x, s).contains(y) {
                assert(seq![x][0] == x);
            }
            if y == x {
                assert(insert_name(x, s)[0] == x);
            }
        }
    } else if x == s[0] {
    } else if text_less(x, s[0]) {
        let r = seq![x] + s;
        assert forall|i: int| 0 <= i < r.len() - 1 implies text_less(#[trigger] r[i], r[i + 1]) by {
            if i > 0 {
                assert(r[i] == s[i - 1]);
                assert(r[i + 1] == s[i]);
            }
        }
        assert forall|y: Seq<char>| #[trigger] r.contains(y) <==> (y == x || s.contains(y)) by {
            if r.contains(y) {
                let k = choose|k: int| 0 <= k < r.len() && r[k] == y;
                if k > 0 {
                    assert(s[k - 1] == y);
                }
            }
            if s.contains(y) {
                let k = choose|k: int| 0 <= k < s.len() && s[k] == y;
                assert(r[k + 1] == y);
            }
            if y == x {
                assert(r[0] == y);
            }
        }
    } else {
        let t = s.drop_first();
        assert forall|i: int| 0 <= i < t.len() - 1 implies text_less(#[trigger] t[i], t[i + 1]) by {
            assert(t[i] == s[i + 1]);
            assert(t[i + 1] == s[i + 2]);
        }
        lemma_insert_name(x, t);
        lemma_text_less_total(x, s[0]);
        let u = insert_name(x, t);
        let r = seq![s[0]] + u;
        assert forall|i: int| 0 <= i < r.len() - 1 implies text_less(#[trigger] r[i], r[i + 1]) by {
            if i == 0 {
                assert(r[1] == u[0]);
                if t.len() > 0 && u[0] == t[0] {
                    assert(t[0] == s[1]);
                }
            } else {
                assert(r[i] == u[i - 1]);
                assert(r[i + 1] == u[i]);
            }
        }
        assert forall|y: Seq<char>| #[trigger] r.contains(y) <==> (y == x || s.contains(y)) by {
            if r.contains(y) {
                let k = choose|k: int| 0 <= k < r.len() && r[k] == y;
                if k > 0 {
                    assert(u[k - 1] == y);
                    assert(u.contains(y));
                    if t.contains(y) {
                        let j = choose|j: int| 0 <= j < t.len() && t[j] == y;
                        assert(s[j + 1] == y);
                    }
                } else {
                    assert(s[0] == y);
                }
            }
            if s.contains(y) {
                let k = choose|k: int| 0 <= k < s.len() && s[k] == y;
                if k > 0 {
                    assert(t[k - 1] == y);
                    assert(u.contains(y));
                    let j = choose|j: int| 0 <= j < u.len() && u[j] == y;
                    assert(r[j + 1] == y);
                } else {
                    assert(r[0] == y);
                }
            }
            if y == x {
                assert(u.contains(y));
                let j = choose|j: int| 0 <= j < u.len() && u[j] == y;
                assert(r[j + 1] == y);
            }
        }
    }
}

/// The sorted distinct names hold exactly the given names, in ascending order.
pub proof fn lemma_sorted_names(names: Seq<Seq<char>>)
    ensures
        strictly_ascending(sorted_names(names)),
        forall|y: Seq<char>| #[trigger] sorted_names(names).contains(y) <==> names.contains(y),
    decreases names.len(),
{
    if names.len() > 0 {
        let init = names.drop_last();
        lemma_sorted_names(init);
        lemma_insert_name(names.last(), sorted_names(init));
        assert forall|y: Seq<char>| #[trigger] sorted_names(names).contains(y) <==> names.contains(y) by {
            if init.contains(y) {
                let k = choose|k: int| 0 <= k < init.len() && init[k] == y;
                assert(names[k] == y);
            }
            if names.contains(y) {
                let k = choose|k: int| 0 <= k < names.len() && names[k] == y;
                if k < names.len() - 1 {
                    assert(init[k] == y);
                }
            }
        }
    }
}

/// The distinct strings of `names`, each once, in ascending order.
pub fn sorted_distinct(names: &Vec<String>) -> (r: Vec<String>)
    ensures
        r.deep_view() == sorted_names(names.deep_view()),
{
    let ghost all = names.deep_view();
    let mut r: Vec<String> = Vec::new();
    let mut i: usize = 0;
    proof {
        assert(all.subrange(0, 0) =~= Seq::<Seq<char>>::empty());
        assert(r.deep_view() =~= Seq::<Seq<char>>::empty());
    }
    while i < names.len()
        invariant
            0 <= i <= names@.len(),
            all == names.deep_view(),
            r.deep_view() == sorted_names(all.subrange(0, i as int)),
        decreases names@.len() - i,
    {
        let x = &names[i];
        let ghost s = r.deep_view();
        let mut p: usize = 0;
        let mut found = false;
        while p < r.len()
            invariant_except_break
                !found,
            invariant
                0 <= p <= r@.len(),
                s == r.deep_view(),
                forall|k: int| 0 <= k < p ==> s[k] != x@ && !text_less(x@, #[trigger] s[k]),
            ensures
                0 <= p <= r@.len(),
                forall|k: int| 0 <= k < p ==> s[k] != x@ && !text_less(x@, #[trigger] s[k]),
                found ==> p < r@.len() && s[p as int] == x@,
                !found && p < r@.len() ==> text_less(x@, s[p as int]),
            decreases r@.len() - p,
        {
            if r[p] == *x {
                found = true;
                break;
            }
            if less_than(x.as_str(), r[p].as_str()) {
                break;
            }
            p = p + 1;
        }
        proof {
            lemma_text_less_total(x@, x@);
            lemma_insert_at(x@, s, p as int);
            assert(all.subrange(0, i + 1).drop_last() =~= all.subrange(0, i as int));
            assert(all.subrange(0, i + 1).last() == x@);
            assert(sorted_names(all.subrange(0, i + 1)) == insert_name(x@, s));
        }
        if !found {
            let c = x.clone();
            r.insert(p, c);
            proof {
                assert(c@ == x@);
                assert(r.deep_view() =~= s.insert(p as int, x@));
            }
        }
        i = i + 1;
    }
    proof {
        assert(all.subrange(0, names@.len() as int) =~= all);
    }
    r
}

} // verus!
