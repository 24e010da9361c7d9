//! Text rules of request validation: Unicode white space and trimming.

use vstd::prelude::*;

verus! {

/// Whether `c` has the Unicode `White_Space` property, which is what Rust's
/// `char::is_whitespace` and `str::trim` go by.
pub open spec fn is_white_space(c: char) -> bool {
    let u = c as int;
    ||| 0x9 <= u <= 0xd
    ||| u == 0x20
    ||| u == 0x85
    ||| u == 0xa0
    ||| u == 0x1680
    ||| 0x2000 <= u <= 0x200a
    ||| u == 0x2028
    ||| u == 0x2029
    ||| u == 0x202f
    ||| u == 0x205f
    ||| u == 0x3000
}

/// `s` without its leading white space.
pub open spec fn trim_start(s: Seq<char>) -> Seq<char>
    decreases s.len(),
{
    if s.len() > 0 && is_white_space(s[0]) {
        trim_start(s.drop_first())
    } else {
        s
    }
}

/// `s` without its trailing white space.
pub open spec fn trim_end(s: Seq<char>) -> Seq<char>
    decreases s.len(),
{
    if s.len() > 0 && is_white_space(s.last()) {
        trim_end(s.drop_last())
    } else {
        s
    }
}

/// `s` without its leading and trailing white space.
pub open spec fn trim(s: Seq<char>) -> Seq<char> {
    trim_end(trim_start(s))
}

/// Whether `c` is Unicode white space.
pub fn is_white_space_char(c: char) -> (r: bool)
    ensures
        r == is_white_space(c),
{
    let u = c as u32;
    (0x9 <= u && u <= 0xd) || u == 0x20 || u == 0x85 || u == 0xa0 || u == 0x1680 || (0x2000
        <= u && u <= 0x200a) || u == 0x2028 || u == 0x2029 || u == 0x202f || u == 0x205f || u
        == 0x3000
}

/// `s` with leading and trailing white space removed, as `str::trim` does.
pub fn trim_str(s: &str) -> (r: String)
    ensures
        r@ == trim(s@),
{
    let n = s.unicode_len();
    let mut a: usize = 0;
    assert(s@.subrange(0, n as int) =~= s@);
    while a < n && is_white_space_char(s.get_char(a))
        invariant
            a <= n,
            n == s@.len(),
            trim_start(s@) == trim_start(s@.subrange(a as int, n as int)),
        decreases n - a,
    {
        let ghost t = s@.subrange(a as int, n as int);
        assert(t.drop_first() =~= s@.subrange(a + 1, n as int));
        a = a + 1;
    }
    let ghost front = s@.subrange(a as int, n as int);
    assert(trim_start(s@) == front);
    let mut b: usize = n;
    while b > a && is_white_space_char(s.get_char(b - 1))
        invariant
            a <= b <= n,
            n == s@.len(),
            trim_end(front) == trim_end(s@.subrange(a as int, b as int)),
        decreases b - a,
    {
        let ghost t = s@.subrange(a as int, b as int);
        assert(t.drop_last() =~= s@.subrange(a as int, b - 1));
        b = b - 1;
    }
    let part = s.substring_char(a, b);
    assert(trim(s@) == part@);
    part.to_owned()
}

/// What remains after dropping leading white space is empty or starts with a
/// character that is not white space.
proof fn lemma_trim_start_shape(s: Seq<char>)
    ensures
        trim_start(s).len() == 0 || !is_white_space(trim_start(s)[0]),
    decreases s.len(),
{
    if s.len() > 0 && is_white_space(s[0]) {
        lemma_trim_start_shape(s.drop_first());
    }
}

/// Dropping trailing white space from a text that starts with a character
/// that is not white space keeps that first character, and leaves a text that
/// ends with a character that is not white space.
proof fn lemma_trim_end_shape(x: Seq<char>)
    requires
        x.len() > 0,
        !is_white_space(x[0]),
    ensures
        trim_end(x).len() > 0,
        trim_end(x)[0] == x[0],
        !is_white_space(trim_end(x).last()),
    decreases x.len(),
{
    if is_white_space(x.last()) {
        assert(x.len() >= 2);
        assert(x.drop_last()[0] == x[0]);
        lemma_trim_end_shape(x.drop_last());
    }
}

/// Trimming twice is trimming once: a trimmed text has no white space left at
/// either end.
pub proof fn law_trim_idempotent(s: Seq<char>)
    ensures
        trim(trim(s)) == trim(s),
{
    let f = trim_start(s);
    lemma_trim_start_shape(s);
    if f.len() > 0 {
        lemma_trim_end_shape(f);
        let t = trim_end(f);
        assert(trim_start(t) == t);
        assert(trim_end(t) == t);
    } else {
        assert(trim_end(f) == f);
        assert(trim_start(f) == f);
        assert(trim_end(trim_start(f)) == f);
    }
}

} // verus!
