//! Verified path-shaped string helpers: the final component of a path,
//! tilde expansion against an injected home directory, and the globally
//! ignored artifact names.

use vstd::prelude::*;
use vstd::string::StrSliceExecFns;
use vstd::string::StringExecFns;

use crate::text::eq_ignore_ascii_case;
use crate::text::eq_ignore_case_spec;

verus! {

/// `s` with every trailing `'/'` removed.
pub open spec fn strip_trailing_slashes_spec(s: Seq<char>) -> Seq<char>
    decreases s.len(),
{
    if s.len() > 0 && s.last() == '/' {
        strip_trailing_slashes_spec(s.drop_last())
    } else {
        s
    }
}

/// Index of the last occurrence of `c` in `s`, or `-1` when absent.
pub open spec fn last_index_of(s: Seq<char>, c: char) -> int
    decreases s.len(),
{
    if s.len() == 0 {
        -1
    } else if s.last() == c {
        s.len() - 1
    } else {
        last_index_of(s.drop_last(), c)
    }
}

/// The final component of a path: what follows the last `'/'` once trailing
/// slashes are dropped. Empty for paths such as `/`.
pub open spec fn file_name_spec(s: Seq<char>) -> Seq<char> {
    let t = strip_trailing_slashes_spec(s);
    t.skip(last_index_of(t, '/') + 1)
}

proof fn lemma_strip_trailing_from_scan(s: Seq<char>, b: int)
    requires
        0 <= b <= s.len(),
        forall|j: int| b <= j < s.len() ==> s[j] == '/',
        b > 0 ==> s[b - 1] != '/',
    ensures
        strip_trailing_slashes_spec(s) == s.take(b),
    decreases s.len(),
{
    if b == s.len() {
        if s.len() > 0 && s.last() == '/' {
            assert(false);
        }
        assert(s.take(b) =~= s);
    } else {
        assert(s.last() == '/');
        let t = s.drop_last();
        assert(forall|j: int| b <= j < t.len() ==> t[j] == s[j] && t[j] == '/');
        if b > 0 {
            assert(t[b - 1] == s[b - 1]);
        }
        lemma_strip_trailing_from_scan(t, b);
        assert(t.take(b) =~= s.take(b));
    }
}

proof fn lemma_last_index_from_scan(s: Seq<char>, c: char, k: int)
    requires
        -1 <= k < s.len(),
        forall|j: int| k < j < s.len() ==> s[j] != c,
        k >= 0 ==> s[k] == c,
    ensures
        last_index_of(s, c) == k,
    decreases s.len(),
{
    if s.len() == 0 {
    } else if k == s.len() - 1 {
        assert(s.last() == c);
    } else {
        assert(s.last() != c);
        let t = s.drop_last();
        assert(forall|j: int| k < j < t.len() ==> t[j] == s[j] && t[j] != c);
        if k >= 0 {
            assert(t[k] == s[k]);
        }
        lemma_last_index_from_scan(t, c, k);
    }
}

/// The final component of `path`, empty when the stripped path has none.
pub fn file_name_of(path: &str) -> (r: &str)
    ensures
        r@ == file_name_spec(path@),
{
    let n = path.unicode_len();
    let mut b: usize = n;
    while b > 0 && path.get_char(b - 1) == '/'
        invariant
            0 <= b <= n,
            n == path@.len(),
            forall|j: int| b <= j < n ==> path@[j] == '/',
        decreases b,
    {
        b = b - 1;
    }
    proof {
        lemma_strip_trailing_from_scan(path@, b as int);
    }
    let mut a: usize = b;
    while a > 0 && path.get_char(a - 1) != '/'
        invariant
            0 <= a <= b <= n,
            n == path@.len(),
            forall|j: int| a <= j < b ==> path@[j] != '/',
        decreases a,
    {
        a = a - 1;
    }
    proof {
        let t = path@.take(b as int);
        assert(forall|j: int| a <= j < b ==> t[j] == path@[j]);
        if a > 0 {
            assert(t[a - 1] == path@[a - 1]);
        }
        lemma_last_index_from_scan(t, '/', a - 1);
        assert(t.skip(a as int) =~= path@.subrange(a as int, b as int));
    }
    path.substring_char(a, b)
}

/// Whether `path` names an artifact that is ignored everywhere: its file
/// name is `.DS_Store`, compared without regard to ASCII case.
pub fn is_globally_ignored(path: &str) -> (r: bool)
    ensures
        r == eq_ignore_case_spec(file_name_spec(path@), ".DS_Store"@),
{
    eq_ignore_ascii_case(file_name_of(path), ".DS_Store")
}

/// The parent of a path: everything before its last `'/'` once trailing
/// slashes are dropped. A path without a slash has the empty parent, and a
/// path that is nothing but slashes (or empty) is its own parent.
pub open spec fn parent_of_spec(s: Seq<char>) -> Seq<char> {
    let t = strip_trailing_slashes_spec(s);
    if t.len() == 0 {
        s
    } else {
        let k = last_index_of(t, '/');
        if k < 0 {
            Seq::empty()
        } else {
            t.take(k)
        }
    }
}

/// The parent directory of `path`.
pub fn parent_of(path: &str) -> (r: String)
    ensures
        r@ == parent_of_spec(path@),
{
    let n = path.unicode_len();
    let mut b: usize = n;
    while b > 0 && path.get_char(b - 1) == '/'
        invariant
            0 <= b <= n,
            n == path@.len(),
            forall|j: int| b <= j < n ==> path@[j] == '/',
        decreases b,
    {
        b = b - 1;
    }
    proof {
        lemma_strip_trailing_from_scan(path@, b as int);
    }
    if b == 0 {
        return path.to_owned();
    }
    let mut a: usize = b;
    while a > 0 && path.get_char(a - 1) != '/'
        invariant
            0 <= a <= b <= n,
            n == path@.len(),
            forall|j: int| a <= j < b ==> path@[j] != '/',
        decreases a,
    {
        a = a - 1;
    }
    proof {
        let t = path@.take(b as int);
        assert(forall|j: int| a <= j < b ==> t[j] == path@[j]);
        if a > 0 {
            assert(t[a - 1] == path@[a - 1]);
        }
        lemma_last_index_from_scan(t, '/', a - 1);
    }
    if a == 0 {
        proof {
            assert(Seq::<char>::empty() =~= path@.subrange(0, 0));
        }
        path.substring_char(0, 0).to_owned()
    } else {
        proof {
            assert(path@.take(b as int).take(a - 1) =~= path@.subrange(0, a - 1));
        }
        path.substring_char(0, a - 1).to_owned()
    }
}

/// `s` with every leading `'/'` removed.
pub open spec fn drop_leading_slashes_spec(s: Seq<char>) -> Seq<char>
    decreases s.len(),
{
    if s.len() > 0 && s[0] == '/' {
        drop_leading_slashes_spec(s.drop_first())
    } else {
        s
    }
}

/// What `expand_tilde` yields: a path starting with `'~'` is re-rooted at
/// the home directory when one is known; everything else is unchanged.
pub open spec fn expand_tilde_spec(path: Seq<char>, home: Option<Seq<char>>) -> Seq<char> {
    if path.len() > 0 && path[0] == '~' && home is Some {
        let h = home->0;
        let rest = path.drop_first();
        if rest.len() == 0 {
            h
        } else {
            h + seq!['/'] + drop_leading_slashes_spec(rest)
        }
    } else {
        path
    }
}

proof fn lemma_drop_leading_from_scan(s: Seq<char>, a: int)
    requires
        0 <= a <= s.len(),
        forall|j: int| 0 <= j < a ==> s[j] == '/',
        a < s.len() ==> s[a] != '/',
    ensures
        drop_leading_slashes_spec(s) == s.skip(a),
    decreases s.len(),
{
    if a == 0 {
        if s.len() > 0 && s[0] == '/' {
            assert(false);
        }
        assert(s.skip(0) =~= s);
    } else {
        assert(s[0] == '/');
        let t = s.drop_first();
        assert(forall|j: int| 0 <= j < a - 1 ==> t[j] == s[j + 1] && t[j] == '/');
        if a - 1 < t.len() {
            assert(t[a - 1] == s[a]);
        }
        lemma_drop_leading_from_scan(t, a - 1);
        assert(t.skip(a - 1) =~= s.skip(a));
    }
}

/// Expands a leading `'~'` to the home directory, when one is known. The
/// home directory itself is a fact the caller injects; this function only
/// rewrites the path.
pub fn expand_tilde(path: &str, home: &Option<String>) -> (r: String)
    ensures
        r@ == expand_tilde_spec(path@, match home {
            Some(h) => Some(h@),
            None => None,
        }),
{
    let n = path.unicode_len();
    if n == 0 || path.get_char(0) != '~' {
        return path.to_owned();
    }
    match home {
        None => path.to_owned(),
        Some(h) => {
            if n == 1 {
                proof {
                    assert(path@.drop_first().len() == 0);
                }
                return h.clone();
            }
            let mut a: usize = 1;
            while a < n && path.get_char(a) == '/'
                invariant
                    1 <= a <= n,
                    n == path@.len(),
                    forall|j: int| 1 <= j < a ==> path@[j] == '/',
                decreases n - a,
            {
                a = a + 1;
            }
            proof {
                let rest = path@.drop_first();
                assert(forall|j: int| 0 <= j < a - 1 ==> rest[j] == path@[j + 1]);
                if a < n {
                    assert(rest[a - 1] == path@[a as int]);
                }
                lemma_drop_leading_from_scan(rest, a - 1);
                assert(rest.skip(a - 1) =~= path@.subrange(a as int, n as int));
            }
            let mut out = h.clone();
            out.append("/");
            out.append(path.substring_char(a, n));
            proof {
                reveal_strlit("/");
                assert("/"@ =~= seq!['/']);
            }
            out
        },
    }
}

} // verus!
