//! Unix paths as strings: whether a path is absolute, the directory that
//! holds it, and joining a relative path onto a directory.

use vstd::prelude::*;
use crate::text::push_char;

verus! {

pub open spec fn is_absolute_path(p: Seq<char>) -> bool {
    p.len() > 0 && p[0] == '/'
}

/// The position of the last `/` in `p`, if there is one.
pub open spec fn last_slash(p: Seq<char>) -> Option<int>
    decreases p.len(),
{
    if p.len() == 0 {
        None
    } else if p.last() == '/' {
        Some(p.len() - 1)
    } else {
        last_slash(p.drop_last())
    }
}

/// The directory that holds `p`: everything before its last `/` (the root for
/// a path directly under it), the empty path for a bare file name, and none
/// for the empty path or the root itself.
pub open spec fn parent_dir(p: Seq<char>) -> Option<Seq<char>> {
    if p.len() == 0 || p == seq!['/'] {
        None
    } else {
        match last_slash(p) {
            None => Some(Seq::empty()),
            Some(k) => if k == 0 {
                Some(seq!['/'])
            } else {
                Some(p.subrange(0, k))
            },
        }
    }
}

/// `rel` under the directory `dir`.
pub open spec fn join_path(dir: Seq<char>, rel: Seq<char>) -> Seq<char> {
    if dir.len() == 0 {
        rel
    } else if dir.last() == '/' {
        dir + rel
    } else {
        dir.push('/') + rel
    }
}

/// The last `/` stands inside the path, and a path that starts with `/`
/// has one.
pub proof fn lemma_last_slash(p: Seq<char>)
    ensures
        last_slash(p) matches Some(k) ==> 0 <= k < p.len() && p[k] == '/',
        p.len() > 0 && p[0] == '/' ==> last_slash(p) is Some,
    decreases p.len(),
{
    if p.len() > 0 {
        let q = p.drop_last();
        lemma_last_slash(q);
        if p.len() > 1 {
            assert(q[0] == p[0]);
        }
    }
}

/// The directory of an absolute path is absolute, and so is anything
/// joined under an absolute directory.
pub proof fn lemma_absolute_stays(p: Seq<char>, rel: Seq<char>)
    ensures
        is_absolute_path(p) ==> (parent_dir(p) matches Some(d) ==> is_absolute_path(d)),
        is_absolute_path(p) ==> is_absolute_path(join_path(p, rel)),
{
    lemma_last_slash(p);
    if is_absolute_path(p) {
        if let Some(k) = last_slash(p) {
            if k > 0 {
                assert(p.subrange(0, k)[0] == p[0]);
            }
        }
        if p.last() == '/' {
            assert((p + rel)[0] == p[0]);
        } else {
            assert((p.push('/') + rel)[0] == p[0]);
        }
    }
}

/// Whether `p` starts with `/`.
pub fn is_absolute(p: &str) -> (r: bool)
    ensures
        r == is_absolute_path(p@),
{
    p.unicode_len() > 0 && p.get_char(0) == '/'
}

/// The directory that holds `p`, as `parent_dir` describes it.
pub fn parent(p: &str) -> (r: Option<String>)
    ensures
        r matches Some(d) ==> parent_dir(p@) == Some(d@),
        r is None ==> parent_dir(p@) is None,
{
    let n = p.unicode_len();
    if n == 0 || (n == 1 && p.get_char(0) == '/') {
        proof {
            if n == 1 {
                assert(p@ =~= seq!['/']);
            }
        }
        return None;
    }
    proof {
        if p@ == seq!['/'] {
            assert(p@.len() == 1 && p@[0] == '/');
        }
    }
    let mut k: usize = n;
    proof {
        assert(p@.subrange(0, n as int) =~= p@);
    }
    while k > 0
        invariant
            0 <= k <= n,
            n == p@.len(),
            last_slash(p@) == last_slash(p@.subrange(0, k as int)),
        ensures
            0 <= k <= n,
            last_slash(p@) == last_slash(p@.subrange(0, k as int)),
            k > 0 ==> p@[k - 1] == '/',
        decreases k,
    {
        if p.get_char(k - 1) == '/' {
            break;
        }
        proof {
            assert(p@.subrange(0, k as int).drop_last() =~= p@.subrange(0, k - 1));
        }
        k = k - 1;
    }
    if k == 0 {
        proof {
            assert(p@.subrange(0, 0) =~= Seq::<char>::empty());
        }
        Some(String::new())
    } else if k == 1 {
        proof {
            assert(p@.subrange(0, 1).last() == p@[0]);
        }
        let mut d = String::new();
        push_char(&mut d, '/');
        proof {
            assert(d@ =~= seq!['/']);
        }
        Some(d)
    } else {
        proof {
            assert(p@.subrange(0, k as int).last() == p@[k - 1]);
        }
        Some(p.substring_char(0, k - 1).to_owned())
    }
}

/// `rel` under the directory `dir`, as `join_path` describes it.
pub fn join(dir: &str, rel: &str) -> (r: String)
    ensures
        r@ == join_path(dir@, rel@),
{
    let n = dir.unicode_len();
    if n == 0 {
        rel.to_owned()
    } else if dir.get_char(n - 1) == '/' {
        dir.to_owned().concat(rel)
    } else {
        let mut d = dir.to_owned();
        push_char(&mut d, '/');
        d.concat(rel)
    }
}

} // verus!
