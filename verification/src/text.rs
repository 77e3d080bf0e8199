//! Verified helpers for the light text processing the assistant needs:
//! scanning for a character, trimming whitespace, splitting command output
//! into lines, prefix handling and case-insensitive comparison.

use vstd::prelude::*;
use vstd::string::StrSliceExecFns;
use vstd::string::StringExecFns;

verus! {

/// The views of a sequence of strings.
pub open spec fn views_of(v: Seq<String>) -> Seq<Seq<char>> {
    Seq::new(v.len(), |i: int| v[i]@)
}

/// Whitespace recognized when tidying command output.
pub open spec fn is_space_char(c: char) -> bool {
    c == ' ' || c == '\t' || c == '\r' || c == '\n'
}

/// Index of the first occurrence of `c` in `s`, or `s.len()` when `c` does
/// not occur.
pub open spec fn first_index_of(s: Seq<char>, c: char) -> int
    decreases s.len(),
{
    if s.len() == 0 {
        0
    } else if s[0] == c {
        0
    } else {
        1 + first_index_of(s.drop_first(), c)
    }
}

proof fn lemma_first_index_of_from_scan(s: Seq<char>, c: char, i: int)
    requires
        0 <= i <= s.len(),
        forall|j: int| 0 <= j < i ==> s[j] != c,
        i < s.len() ==> s[i] == c,
    ensures
        first_index_of(s, c) == i,
    decreases s.len(),
{
    if i == 0 {
        if s.len() > 0 && s[0] != c {
            assert(false);
        }
    } else {
        assert(s[0] != c);
        let t = s.drop_first();
        assert(forall|j: int| 0 <= j < i - 1 ==> t[j] == s[j + 1] && t[j] != c);
        lemma_first_index_of_from_scan(t, c, i - 1);
    }
}

/// Whether `c` occurs in `s`; `first_index_of` points at the first such spot.
pub proof fn lemma_first_index_of_bounds(s: Seq<char>, c: char)
    ensures
        0 <= first_index_of(s, c) <= s.len(),
        forall|j: int| 0 <= j < first_index_of(s, c) ==> s[j] != c,
        first_index_of(s, c) < s.len() ==> s[first_index_of(s, c)] == c,
    decreases s.len(),
{
    if s.len() > 0 && s[0] != c {
        let t = s.drop_first();
        lemma_first_index_of_bounds(t, c);
        assert(forall|j: int| 1 <= j < first_index_of(s, c) ==> s[j] == t[j - 1] && s[j] != c);
    }
}

/// Position of the first occurrence of `c` in `s` at or after `from`,
/// reported as an offset in `s`; `s.len()` when there is none.
pub fn find_char_from(s: &str, from: usize, c: char) -> (r: usize)
    requires
        from <= s@.len(),
    ensures
        from <= r <= s@.len(),
        r - from == first_index_of(s@.skip(from as int), c),
{
    let n = s.unicode_len();
    let mut i: usize = from;
    while i < n
        invariant
            from <= i <= n,
            n == s@.len(),
            forall|j: int| from <= j < i ==> s@[j] != c,
        decreases n - i,
    {
        if s.get_char(i) == c {
            proof {
                let t = s@.skip(from as int);
                assert(forall|j: int| 0 <= j < i - from ==> t[j] == s@[j + from] && t[j] != c);
                lemma_first_index_of_from_scan(t, c, i - from);
            }
            return i;
        }
        i = i + 1;
    }
    proof {
        let t = s@.skip(from as int);
        assert(forall|j: int| 0 <= j < n - from ==> t[j] == s@[j + from] && t[j] != c);
        lemma_first_index_of_from_scan(t, c, n - from);
    }
    n
}

/// The suffix of `s` once every trailing whitespace character is dropped.
pub open spec fn trim_end_spec(s: Seq<char>) -> Seq<char>
    decreases s.len(),
{
    if s.len() > 0 && is_space_char(s.last()) {
        trim_end_spec(s.drop_last())
    } else {
        s
    }
}

/// `s` once every leading whitespace character is dropped.
pub open spec fn trim_start_spec(s: Seq<char>) -> Seq<char>
    decreases s.len(),
{
    if s.len() > 0 && is_space_char(s[0]) {
        trim_start_spec(s.drop_first())
    } else {
        s
    }
}

/// `s` with whitespace removed from both ends.
pub open spec fn trim_spec(s: Seq<char>) -> Seq<char> {
    trim_start_spec(trim_end_spec(s))
}

proof fn lemma_trim_end_from_scan(s: Seq<char>, b: int)
    requires
        0 <= b <= s.len(),
        forall|j: int| b <= j < s.len() ==> is_space_char(s[j]),
        b > 0 ==> !is_space_char(s[b - 1]),
    ensures
        trim_end_spec(s) == s.take(b),
    decreases s.len(),
{
    if b == s.len() {
        if s.len() > 0 && is_space_char(s.last()) {
            assert(false);
        }
        assert(s.take(b) =~= s);
    } else {
        assert(is_space_char(s.last()));
        let t = s.drop_last();
        assert(forall|j: int| b <= j < t.len() ==> t[j] == s[j] && is_space_char(t[j]));
        if b > 0 {
            assert(t[b - 1] == s[b - 1]);
        }
        lemma_trim_end_from_scan(t, b);
        assert(t.take(b) =~= s.take(b));
    }
}

proof fn lemma_trim_start_from_scan(s: Seq<char>, a: int)
    requires
        0 <= a <= s.len(),
        forall|j: int| 0 <= j < a ==> is_space_char(s[j]),
        a < s.len() ==> !is_space_char(s[a]),
    ensures
        trim_start_spec(s) == s.skip(a),
    decreases s.len(),
{
    if a == 0 {
        if s.len() > 0 && is_space_char(s[0]) {
            assert(false);
        }
        assert(s.skip(0) =~= s);
    } else {
        assert(is_space_char(s[0]));
        let t = s.drop_first();
        assert(forall|j: int| 0 <= j < a - 1 ==> t[j] == s[j + 1] && is_space_char(t[j]));
        if a - 1 < t.len() {
            assert(t[a - 1] == s[a]);
        }
        lemma_trim_start_from_scan(t, a - 1);
        assert(t.skip(a - 1) =~= s.skip(a));
    }
}

/// `s` with whitespace removed from its end only.
pub fn trim_end(s: &str) -> (r: &str)
    ensures
        r@ == trim_end_spec(s@),
{
    let n = s.unicode_len();
    let mut b: usize = n;
    while b > 0 && is_space(s.get_char(b - 1))
        invariant
            0 <= b <= n,
            n == s@.len(),
            forall|j: int| b <= j < n ==> is_space_char(s@[j]),
        decreases b,
    {
        b = b - 1;
    }
    proof {
        lemma_trim_end_from_scan(s@, b as int);
        assert(s@.take(b as int) == s@.subrange(0, b as int));
    }
    s.substring_char(0, b)
}

/// Whether `c` is whitespace.
pub fn is_space(c: char) -> (r: bool)
    ensures
        r == is_space_char(c),
{
    c == ' ' || c == '\t' || c == '\r' || c == '\n'
}

/// `s` with whitespace removed from both ends.
pub fn trim(s: &str) -> (r: &str)
    ensures
        r@ == trim_spec(s@),
{
    let n = s.unicode_len();
    let mut b: usize = n;
    while b > 0 && is_space(s.get_char(b - 1))
        invariant
            0 <= b <= n,
            n == s@.len(),
            forall|j: int| b <= j < n ==> is_space_char(s@[j]),
        decreases b,
    {
        b = b - 1;
    }
    proof {
        lemma_trim_end_from_scan(s@, b as int);
    }
    let mut a: usize = 0;
    while a < b && is_space(s.get_char(a))
        invariant
            0 <= a <= b <= n,
            n == s@.len(),
            forall|j: int| 0 <= j < a ==> is_space_char(s@[j]),
        decreases b - a,
    {
        a = a + 1;
    }
    proof {
        let t = s@.take(b as int);
        assert(forall|j: int| 0 <= j < a ==> t[j] == s@[j]);
        if (a as int) < b {
            assert(t[a as int] == s@[a as int]);
            assert(!is_space_char(t[a as int]));
        }
        lemma_trim_start_from_scan(t, a as int);
        assert(t.skip(a as int) =~= s@.subrange(a as int, b as int));
    }
    s.substring_char(a, b)
}

/// The lines of `s`, split on `'\n'`; the final line needs no terminator,
/// and a trailing `'\n'` does not produce an extra empty line.
pub open spec fn split_lines_spec(s: Seq<char>) -> Seq<Seq<char>>
    decreases s.len(),
{
    if s.len() == 0 {
        Seq::empty()
    } else {
        let i = first_index_of(s, '\n');
        if 0 <= i && i < s.len() {
            seq![s.take(i)] + split_lines_spec(s.skip(i + 1))
        } else {
            seq![s]
        }
    }
}

/// Splits `s` into lines on `'\n'`.
pub fn split_lines(s: &str) -> (r: Vec<String>)
    ensures
        views_of(r@) == split_lines_spec(s@),
{
    let n = s.unicode_len();
    let mut out: Vec<String> = Vec::new();
    let mut pos: usize = 0;
    proof {
        assert(s@.skip(0) =~= s@);
        assert(views_of(out@) + split_lines_spec(s@) =~= split_lines_spec(s@));
    }
    while pos < n
        invariant
            0 <= pos <= n,
            n == s@.len(),
            views_of(out@) + split_lines_spec(s@.skip(pos as int)) == split_lines_spec(s@),
        decreases n - pos,
    {
        let j = find_char_from(s, pos, '\n');
        let line = s.substring_char(pos, j).to_owned();
        proof {
            let rest = s@.skip(pos as int);
            lemma_first_index_of_bounds(rest, '\n');
            assert(rest.len() > 0);
            assert(rest.take(j - pos) =~= s@.subrange(pos as int, j as int));
            if j < n {
                assert(rest.skip(j - pos + 1) =~= s@.skip(j + 1));
                assert(split_lines_spec(rest) == seq![line@] + split_lines_spec(s@.skip(j + 1)));
            } else {
                assert(rest =~= line@);
                assert(split_lines_spec(rest) == seq![line@]);
                assert(s@.skip(n as int).len() == 0);
            }
        }
        let ghost old_out = out@;
        out.push(line);
        proof {
            assert(views_of(out@) =~= views_of(old_out).push(out@.last()@));
        }
        if j < n {
            pos = j + 1;
        } else {
            pos = n;
        }
        proof {
            assert(views_of(out@) + split_lines_spec(s@.skip(pos as int)) =~= split_lines_spec(
                s@,
            ));
        }
    }
    proof {
        assert(s@.skip(n as int).len() == 0);
        assert(views_of(out@) + split_lines_spec(s@.skip(n as int)) =~= views_of(out@));
    }
    out
}

/// Whether two string slices hold the same characters.
pub fn str_eq(a: &str, b: &str) -> (r: bool)
    ensures
        r == (a@ == b@),
{
    let n = a.unicode_len();
    if n != b.unicode_len() {
        proof {
            assert(a@ != b@);
        }
        return false;
    }
    let mut i: usize = 0;
    while i < n
        invariant
            0 <= i <= n,
            n == a@.len(),
            n == b@.len(),
            forall|j: int| 0 <= j < i ==> a@[j] == b@[j],
        decreases n - i,
    {
        if a.get_char(i) != b.get_char(i) {
            proof {
                assert(a@[i as int] != b@[i as int]);
            }
            return false;
        }
        i = i + 1;
    }
    proof {
        assert(a@ =~= b@);
    }
    true
}

/// The remainder of `s` after the prefix `p`, when `s` starts with `p`.
pub fn strip_prefix<'a>(s: &'a str, p: &str) -> (r: Option<&'a str>)
    ensures
        match r {
            Some(rest) => s@.len() >= p@.len() && s@.take(p@.len() as int) == p@ && rest@ == s@.skip(
                p@.len() as int,
            ),
            None => !(s@.len() >= p@.len() && s@.take(p@.len() as int) == p@),
        },
{
    let np = p.unicode_len();
    let ns = s.unicode_len();
    if np > ns {
        return None;
    }
    let head = s.substring_char(0, np);
    if str_eq(head, p) {
        proof {
            assert(s@.take(np as int) == s@.subrange(0, np as int));
        }
        Some(s.substring_char(np, ns))
    } else {
        proof {
            assert(s@.take(np as int) == s@.subrange(0, np as int));
        }
        None
    }
}

/// The ASCII lowercase counterpart of `c`; other characters are unchanged.
pub open spec fn lower_char_spec(c: char) -> char {
    if 'A' <= c && c <= 'Z' {
        ((c as int) + 32) as char
    } else {
        c
    }
}

/// Whether `a` and `b` are equal once ASCII letters are folded to lowercase.
pub open spec fn eq_ignore_case_spec(a: Seq<char>, b: Seq<char>) -> bool {
    a.len() == b.len() && forall|i: int|
        0 <= i < a.len() ==> lower_char_spec(a[i]) == lower_char_spec(b[i])
}

/// Folds an ASCII uppercase letter to lowercase.
pub fn lower_char(c: char) -> (r: char)
    ensures
        r == lower_char_spec(c),
{
    match c {
        'A' => 'a',
        'B' => 'b',
        'C' => 'c',
        'D' => 'd',
        'E' => 'e',
        'F' => 'f',
        'G' => 'g',
        'H' => 'h',
        'I' => 'i',
        'J' => 'j',
        'K' => 'k',
        'L' => 'l',
        'M' => 'm',
        'N' => 'n',
        'O' => 'o',
        'P' => 'p',
        'Q' => 'q',
        'R' => 'r',
        'S' => 's',
        'T' => 't',
        'U' => 'u',
        'V' => 'v',
        'W' => 'w',
        'X' => 'x',
        'Y' => 'y',
        'Z' => 'z',
        _ => {
            proof {
                assert(!('A' <= c && c <= 'Z'));
            }
            c
        },
    }
}

/// Whether `a` and `b` are equal ignoring ASCII case.
pub fn eq_ignore_ascii_case(a: &str, b: &str) -> (r: bool)
    ensures
        r == eq_ignore_case_spec(a@, b@),
{
    let n = a.unicode_len();
    if n != b.unicode_len() {
        return false;
    }
    let mut i: usize = 0;
    while i < n
        invariant
            0 <= i <= n,
            n == a@.len(),
            n == b@.len(),
            forall|j: int| 0 <= j < i ==> lower_char_spec(a@[j]) == lower_char_spec(b@[j]),
        decreases n - i,
    {
        if lower_char(a.get_char(i)) != lower_char(b.get_char(i)) {
            return false;
        }
        i = i + 1;
    }
    true
}

/// `parts` joined with single spaces.
pub open spec fn join_spaces_spec(parts: Seq<Seq<char>>) -> Seq<char>
    decreases parts.len(),
{
    if parts.len() == 0 {
        Seq::empty()
    } else if parts.len() == 1 {
        parts[0]
    } else {
        parts[0] + seq![' '] + join_spaces_spec(parts.drop_first())
    }
}

proof fn lemma_join_spaces_push(parts: Seq<Seq<char>>, p: Seq<char>)
    requires
        parts.len() > 0,
    ensures
        join_spaces_spec(parts.push(p)) == join_spaces_spec(parts) + seq![' '] + p,
    decreases parts.len(),
{
    let whole = parts.push(p);
    assert(whole[0] == parts[0]);
    if parts.len() == 1 {
        assert(whole.drop_first() =~= seq![p]);
        assert(join_spaces_spec(whole.drop_first()) == p);
    } else {
        assert(whole.drop_first() =~= parts.drop_first().push(p));
        lemma_join_spaces_push(parts.drop_first(), p);
        assert(join_spaces_spec(whole) == whole[0] + seq![' '] + join_spaces_spec(
            parts.drop_first().push(p),
        ));
        assert(join_spaces_spec(parts.push(p)) =~= join_spaces_spec(parts) + seq![' '] + p);
    }
}

/// A copy of a string vector whose elements hold the same characters.
pub fn clone_strings(v: &Vec<String>) -> (r: Vec<String>)
    ensures
        views_of(r@) == views_of(v@),
{
    let mut out: Vec<String> = Vec::new();
    let mut i: usize = 0;
    while i < v.len()
        invariant
            0 <= i <= v@.len(),
            views_of(out@) == views_of(v@.take(i as int)),
        decreases v@.len() - i,
    {
        let ghost before = out@;
        let copied = v[i].clone();
        proof {
            assert(copied@ == v@[i as int]@);
            assert(views_of(before).len() == before.len());
        }
        out.push(copied);
        proof {
            let t1 = views_of(out@);
            let t0 = views_of(v@.take(i as int + 1));
            assert(t1.len() == t0.len());
            assert forall|j: int| 0 <= j < t1.len() implies t1[j] == t0[j] by {
                assert(out@[j] == before.push(copied)[j]);
                assert(v@.take(i as int + 1)[j] == v@[j]);
                if j < i {
                    assert(views_of(before)[j] == views_of(v@.take(i as int))[j]);
                    assert(views_of(v@.take(i as int))[j] == v@.take(i as int)[j]@);
                    assert(v@.take(i as int)[j] == v@[j]);
                }
            }
            assert(t1 =~= t0);
        }
        i = i + 1;
    }
    proof {
        assert(v@.take(v@.len() as int) =~= v@);
    }
    out
}

/// A command line rendered for display: the program followed by its
/// arguments, separated by single spaces.
pub fn format_command(program: &str, args: &Vec<String>) -> (r: String)
    ensures
        r@ == join_spaces_spec(seq![program@] + views_of(args@)),
{
    let mut out: String = program.to_owned();
    let mut i: usize = 0;
    while i < args.len()
        invariant
            0 <= i <= args@.len(),
            out@ == join_spaces_spec(seq![program@] + views_of(args@.take(i as int))),
        decreases args@.len() - i,
    {
        let ghost before = seq![program@] + views_of(args@.take(i as int));
        out.append(" ");
        out.append(args[i].as_str());
        proof {
            reveal_strlit(" ");
            assert(" "@ =~= seq![' ']);
            lemma_join_spaces_push(before, args@[i as int]@);
            assert(before.push(args@[i as int]@) =~= seq![program@] + views_of(
                args@.take(i as int + 1),
            ));
        }
        i = i + 1;
    }
    proof {
        assert(args@.take(args@.len() as int) =~= args@);
    }
    out
}

} // verus!
