//! Character-sequence utilities shared by the manifest codec and the CI
//! detection logic: searching, line splitting, and conversions between
//! `&str` and `Vec<char>`.

use vstd::prelude::*;
use vstd::string::*;

verus! {

/// Index of the first occurrence of `c` in `s`, if any.
pub open spec fn find_char(s: Seq<char>, c: char) -> Option<int>
    decreases s.len(),
{
    if s.len() == 0 {
        None
    } else if s[0] == c {
        Some(0)
    } else {
        match find_char(s.drop_first(), c) {
            None => None,
            Some(i) => Some(i + 1),
        }
    }
}

/// `find_char` returns the first matching index, and `None` exactly when
/// there is no match.
pub proof fn lemma_find_char(s: Seq<char>, c: char)
    ensures
        match find_char(s, c) {
            Some(i) => 0 <= i < s.len() && s[i] == c && (forall|j: int| 0 <= j < i ==> s[j] != c),
            None => forall|j: int| 0 <= j < s.len() ==> s[j] != c,
        },
    decreases s.len(),
{
    if s.len() > 0 && s[0] != c {
        lemma_find_char(s.drop_first(), c);
        match find_char(s, c) {
            Some(i) => {
                assert(s[i] == s.drop_first()[i - 1]);
                assert forall|j: int| 0 <= j < i implies s[j] != c by {
                    if j > 0 {
                        assert(s[j] == s.drop_first()[j - 1]);
                    }
                }
            },
            None => {
                assert forall|j: int| 0 <= j < s.len() implies s[j] != c by {
                    if j > 0 {
                        assert(s[j] == s.drop_first()[j - 1]);
                    }
                }
            },
        }
    }
}

/// Converse of `lemma_find_char`: a position that matches first is the result.
pub proof fn lemma_find_char_is(s: Seq<char>, c: char, i: int)
    requires
        0 <= i < s.len(),
        s[i] == c,
        forall|j: int| 0 <= j < i ==> s[j] != c,
    ensures
        find_char(s, c) == Some(i),
    decreases s.len(),
{
    if i > 0 {
        lemma_find_char_is(s.drop_first(), c, i - 1);
    }
}

/// If no position matches, `find_char` returns `None`.
pub proof fn lemma_find_char_none(s: Seq<char>, c: char)
    requires
        forall|j: int| 0 <= j < s.len() ==> s[j] != c,
    ensures
        find_char(s, c) is None,
{
    lemma_find_char(s, c);
    if find_char(s, c) is Some {
        assert(false);
    }
}

/// Number of leading space characters in `s`.
pub open spec fn leading_spaces(s: Seq<char>) -> nat
    decreases s.len(),
{
    if s.len() > 0 && s[0] == ' ' {
        1 + leading_spaces(s.drop_first())
    } else {
        0
    }
}

/// `leading_spaces` counts exactly the maximal all-space prefix.
pub proof fn lemma_leading_spaces(s: Seq<char>)
    ensures
        leading_spaces(s) <= s.len(),
        forall|j: int| 0 <= j < leading_spaces(s) ==> s[j] == ' ',
        leading_spaces(s) < s.len() ==> s[leading_spaces(s) as int] != ' ',
    decreases s.len(),
{
    if s.len() > 0 && s[0] == ' ' {
        lemma_leading_spaces(s.drop_first());
        assert forall|j: int| 0 <= j < leading_spaces(s) implies s[j] == ' ' by {
            if j > 0 {
                assert(s[j] == s.drop_first()[j - 1]);
            }
        }
        if leading_spaces(s) < s.len() {
            assert(s[leading_spaces(s) as int] == s.drop_first()[leading_spaces(s.drop_first()) as int]);
        }
    }
}

/// Converse of `lemma_leading_spaces`: the maximal all-space prefix length
/// is what `leading_spaces` returns.
pub proof fn lemma_leading_spaces_is(s: Seq<char>, n: nat)
    requires
        n <= s.len(),
        forall|j: int| 0 <= j < n ==> s[j] == ' ',
        n < s.len() ==> s[n as int] != ' ',
    ensures
        leading_spaces(s) == n,
    decreases s.len(),
{
    if n > 0 {
        lemma_leading_spaces_is(s.drop_first(), (n - 1) as nat);
    }
}

/// The lines of `s`, split at each newline; a final unterminated line counts,
/// a trailing newline does not add an empty line.
pub open spec fn lines_of(s: Seq<char>) -> Seq<Seq<char>>
    decreases s.len(),
{
    if s.len() == 0 {
        Seq::empty()
    } else {
        match find_char(s, '\n') {
            None => seq![s],
            Some(i) => if 0 <= i < s.len() {
                seq![s.subrange(0, i)] + lines_of(s.subrange(i + 1, s.len() as int))
            } else {
                Seq::empty()
            },
        }
    }
}

/// The characters of `s`, in order, as a vector.
pub fn str_to_chars(s: &str) -> (r: Vec<char>)
    ensures
        r@ == s@,
{
    let n = s.unicode_len();
    let mut r: Vec<char> = Vec::new();
    let mut i: usize = 0;
    while i < n
        invariant
            n == s@.len(),
            i <= n,
            r@ == s@.subrange(0, i as int),
        decreases n - i,
    {
        r.push(s.get_char(i));
        assert(r@ =~= s@.subrange(0, i + 1 as int));
        i = i + 1;
    }
    assert(r@ =~= s@);
    r
}

/// Whether `s` is free of newlines, as a scalar manifest value and an image
/// tag must be.
pub fn single_line(s: &str) -> (r: bool)
    ensures
        r == !s@.contains('\n'),
{
    let n = s.unicode_len();
    let mut i: usize = 0;
    while i < n
        invariant
            n == s@.len(),
            i <= n,
            forall|j: int| 0 <= j < i ==> s@[j] != '\n',
        decreases n - i,
    {
        if s.get_char(i) == '\n' {
            proof {
                assert(s@.contains('\n'));
            }
            return false;
        }
        i = i + 1;
    }
    proof {
        if s@.contains('\n') {
            let j = choose|j: int| 0 <= j < s@.len() && s@[j] == '\n';
            assert(false);
        }
    }
    true
}

/// Whether two character vectors hold the same characters.
pub fn chars_eq(a: &Vec<char>, b: &Vec<char>) -> (r: bool)
    ensures
        r == (a@ == b@),
{
    if a.len() != b.len() {
        return false;
    }
    let n = a.len();
    let mut i: usize = 0;
    while i < n
        invariant
            n == a.len() == b.len(),
            i <= n,
            forall|j: int| 0 <= j < i ==> a@[j] == b@[j],
        decreases n - i,
    {
        if a[i] != b[i] {
            return false;
        }
        i = i + 1;
    }
    assert(a@ =~= b@);
    true
}

/// The characters of `v` from `from` (inclusive) to `to` (exclusive).
pub fn sub_chars(v: &Vec<char>, from: usize, to: usize) -> (r: Vec<char>)
    requires
        from <= to <= v@.len(),
    ensures
        r@ == v@.subrange(from as int, to as int),
{
    let mut r: Vec<char> = Vec::new();
    let mut i: usize = from;
    while i < to
        invariant
            from <= i <= to <= v@.len(),
            r@ == v@.subrange(from as int, i as int),
        decreases to - i,
    {
        r.push(v[i]);
        assert(r@ =~= v@.subrange(from as int, i + 1 as int));
        i = i + 1;
    }
    r
}

/// The views of a sequence of character vectors.
pub open spec fn views_of(v: Seq<Vec<char>>) -> Seq<Seq<char>> {
    v.map_values(|x: Vec<char>| x@)
}

/// The lines of `s`, as `lines_of` describes them.
pub fn split_lines(s: &Vec<char>) -> (r: Vec<Vec<char>>)
    ensures
        views_of(r@) == lines_of(s@),
{
    let n = s.len();
    let mut out: Vec<Vec<char>> = Vec::new();
    let mut cur: Vec<char> = Vec::new();
    let mut i: usize = 0;
    proof {
        assert(s@.subrange(0, n as int) =~= s@);
        assert(views_of(out@) + lines_of(s@.subrange(0, n as int)) =~= lines_of(s@));
    }
    while i < n
        invariant
            n == s@.len(),
            i <= n,
            cur@.len() <= i,
            cur@ == s@.subrange(i - cur@.len(), i as int),
            !cur@.contains('\n'),
            lines_of(s@) == views_of(out@) + lines_of(s@.subrange(i - cur@.len(), n as int)),
        decreases n - i,
    {
        let ghost start = i - cur@.len();
        let ghost rest = s@.subrange(start, n as int);
        let c = s[i];
        if c == '\n' {
            proof {
                assert(rest[i - start] == '\n');
                assert forall|j: int| 0 <= j < i - start implies rest[j] != '\n' by {
                    assert(rest[j] == cur@[j]);
                    if cur@[j] == '\n' {
                        assert(cur@.contains('\n'));
                    }
                }
                lemma_find_char_is(rest, '\n', i - start);
                assert(rest.subrange(0, i - start) =~= cur@);
                assert(rest.subrange(i - start + 1, rest.len() as int) =~= s@.subrange(
                    i + 1,
                    n as int,
                ));
                assert(lines_of(rest) == seq![cur@] + lines_of(s@.subrange(i + 1, n as int)));
            }
            let ghost old_outv = out@;
            let ghost curv = cur@;
            let done = cur;
            out.push(done);
            cur = Vec::new();
            proof {
                assert(out@ == old_outv.push(done));
                assert(views_of(out@) =~= views_of(old_outv) + seq![curv]);
                assert(views_of(out@) + lines_of(s@.subrange(i + 1, n as int)) =~= views_of(
                    old_outv,
                ) + lines_of(rest));
                assert(s@.subrange((i + 1) - cur@.len(), (i + 1) as int) =~= cur@);
            }
        } else {
            let ghost curv = cur@;
            cur.push(c);
            proof {
                assert(cur@ == curv.push(c));
                assert(cur@ =~= s@.subrange(i + 1 - cur@.len(), (i + 1) as int));
                if cur@.contains('\n') {
                    let j = choose|j: int| 0 <= j < cur@.len() && cur@[j] == '\n';
                    if j < curv.len() {
                        assert(curv.contains('\n'));
                    }
                    assert(false);
                }
            }
        }
        i = i + 1;
    }
    if cur.len() > 0 {
        proof {
            let start = i - cur@.len();
            let rest = s@.subrange(start, n as int);
            assert(rest =~= cur@);
            assert forall|j: int| 0 <= j < rest.len() implies rest[j] != '\n' by {
                if rest[j] == '\n' {
                    assert(cur@.contains('\n'));
                }
            }
            lemma_find_char_none(rest, '\n');
            assert(lines_of(rest) == seq![rest]);
        }
        let ghost old_outv = out@;
        let ghost curv = cur@;
        out.push(cur);
        proof {
            assert(out@ == old_outv.push(out@[out@.len() - 1]));
            assert(views_of(out@) =~= views_of(old_outv) + seq![curv]);
            assert(views_of(out@) =~= lines_of(s@));
        }
    } else {
        proof {
            assert(s@.subrange(i as int, n as int) =~= Seq::<char>::empty());
            assert(views_of(out@) + lines_of(Seq::<char>::empty()) =~= views_of(out@));
        }
    }
    assert(views_of(out@) =~= lines_of(s@));
    out
}

} // verus!
