//! Character-level helpers over `str`: Unicode trimming and ASCII case.

use vstd::prelude::*;

verus! {

/// A character with the Unicode `White_Space` property, the set that
/// `char::is_whitespace` and `str::trim` use.
pub open spec fn is_space(c: char) -> bool {
    let n = c as u32;
    ||| 0x09 <= n <= 0x0D
    ||| n == 0x20
    ||| n == 0x85
    ||| n == 0xA0
    ||| n == 0x1680
    ||| 0x2000 <= n <= 0x200A
    ||| n == 0x2028
    ||| n == 0x2029
    ||| n == 0x202F
    ||| n == 0x205F
    ||| n == 0x3000
}

/// `s` without its leading white space.
pub open spec fn trim_start(s: Seq<char>) -> Seq<char>
    decreases s.len(),
{
    if s.len() > 0 && is_space(s[0]) {
        trim_start(s.drop_first())
    } else {
        s
    }
}

/// `s` without its trailing white space.
pub open spec fn trim_end(s: Seq<char>) -> Seq<char>
    decreases s.len(),
{
    if s.len() > 0 && is_space(s.last()) {
        trim_end(s.drop_last())
    } else {
        s
    }
}

/// `s` without leading and trailing white space.
pub open spec fn trimmed(s: Seq<char>) -> Seq<char> {
    trim_end(trim_start(s))
}

/// Whether `c` is white space.
pub fn is_space_char(c: char) -> (b: bool)
    ensures
        b == is_space(c),
{
    let n = c as u32;
    (0x09 <= n && n <= 0x0D) || n == 0x20 || n == 0x85 || n == 0xA0 || n == 0x1680 || (0x2000
        <= n && n <= 0x200A) || n == 0x2028 || n == 0x2029 || n == 0x202F || n == 0x205F || n
        == 0x3000
}

/// `s` with leading and trailing white space removed.
pub fn trim(s: &str) -> (r: &str)
    ensures
        r@ == trimmed(s@),
{
    let n = s.unicode_len();
    let mut i: usize = 0;
    assert(s@.subrange(0, n as int) =~= s@);
    while i < n && is_space_char(s.get_char(i))
        invariant
            n == s@.len(),
            i <= n,
            trim_start(s@) == trim_start(s@.subrange(i as int, n as int)),
        decreases n - i,
    {
        assert(s@.subrange(i as int, n as int).drop_first() =~= s@.subrange(i + 1, n as int));
        i = i + 1;
    }
    let ghost u = s@.subrange(i as int, n as int);
    assert(trim_start(s@) == u);
    let mut j: usize = n;
    while j > i && is_space_char(s.get_char(j - 1))
        invariant
            n == s@.len(),
            i <= j <= n,
            u == s@.subrange(i as int, n as int),
            trim_end(u) == trim_end(s@.subrange(i as int, j as int)),
        decreases j,
    {
        assert(s@.subrange(i as int, j as int).drop_last() =~= s@.subrange(i as int, j - 1));
        j = j - 1;
    }
    s.substring_char(i, j)
}


/// `c` upper-cased if it is an ASCII lower-case letter, else `c` itself.
pub open spec fn ascii_upper(c: char) -> char {
    if 'a' <= c && c <= 'z' {
        ((c as u32) - 32) as char
    } else {
        c
    }
}

/// `c` lower-cased if it is an ASCII upper-case letter, else `c` itself.
pub open spec fn ascii_lower(c: char) -> char {
    if 'A' <= c && c <= 'Z' {
        ((c as u32) + 32) as char
    } else {
        c
    }
}

/// An ASCII letter or digit.
pub open spec fn is_ascii_alnum(c: char) -> bool {
    ||| 'a' <= c && c <= 'z'
    ||| 'A' <= c && c <= 'Z'
    ||| '0' <= c && c <= '9'
}

/// Every character of `s` upper-cased as `str::to_ascii_uppercase` does.
pub open spec fn ascii_uppercase(s: Seq<char>) -> Seq<char> {
    s.map_values(|c: char| ascii_upper(c))
}

/// Every character of `s` lower-cased as `str::to_ascii_lowercase` does.
pub open spec fn ascii_lowercase(s: Seq<char>) -> Seq<char> {
    s.map_values(|c: char| ascii_lower(c))
}

/// The upper-case form of `c`.
pub fn upper_char(c: char) -> (r: char)
    ensures
        r == ascii_upper(c),
{
    if 'a' <= c && c <= 'z' {
        let n: u32 = (c as u32) - 32;
        proof {
            vstd::utf8::char_u32_cast(c, c as u32);
        }
        (n as u8) as char
    } else {
        c
    }
}


/// `String::push`: appends one character to the end of the string.
#[verifier::external_body]
fn push_char(s: &mut String, c: char)
    ensures
        final(s)@ == old(s)@.push(c),
{
    s.push(c)
}

/// `s` with every ASCII lower-case letter upper-cased.
pub fn to_upper(s: &str) -> (r: String)
    ensures
        r@ == ascii_uppercase(s@),
{
    let n = s.unicode_len();
    let mut r = String::new();
    let mut i: usize = 0;
    while i < n
        invariant
            n == s@.len(),
            i <= n,
            r@ == ascii_uppercase(s@.subrange(0, i as int)),
        decreases n - i,
    {
        let c = s.get_char(i);
        push_char(&mut r, upper_char(c));
        assert(ascii_uppercase(s@.subrange(0, i + 1)) =~= ascii_uppercase(s@.subrange(0, i as int)).push(ascii_upper(c)));
        i = i + 1;
    }
    assert(s@.subrange(0, n as int) =~= s@);
    r
}

/// Whether `s`, lower-cased, is `lower`. Compares as
/// `s.to_ascii_lowercase() == lower` would, without building the lower-cased copy.
pub fn lowercase_eq(s: &str, lower: &str) -> (b: bool)
    ensures
        b == (ascii_lowercase(s@) == lower@),
{
    let n = s.unicode_len();
    let m = lower.unicode_len();
    if n != m {
        assert(ascii_lowercase(s@).len() != lower@.len());
        return false;
    }
    let mut i: usize = 0;
    while i < n
        invariant
            n == s@.len(),
            m == lower@.len(),
            n == m,
            i <= n,
            forall|k: int| 0 <= k < i ==> ascii_lower(#[trigger] s@[k]) == lower@[k],
        decreases n - i,
    {
        let c = s.get_char(i);
        let d = lower.get_char(i);
        if lower_char(c) != d {
            assert(ascii_lowercase(s@)[i as int] != lower@[i as int]);
            return false;
        }
        i = i + 1;
    }
    assert(ascii_lowercase(s@) =~= lower@);
    true
}

/// The lower-case form of `c`.
pub fn lower_char(c: char) -> (r: char)
    ensures
        r == ascii_lower(c),
{
    if 'A' <= c && c <= 'Z' {
        let n: u32 = (c as u32) + 32;
        (n as u8) as char
    } else {
        c
    }
}

/// Whether `c` is an ASCII letter or digit.
pub fn is_alnum_char(c: char) -> (b: bool)
    ensures
        b == is_ascii_alnum(c),
{
    ('a' <= c && c <= 'z') || ('A' <= c && c <= 'Z') || ('0' <= c && c <= '9')
}


/// Case mapping leaves white space and everything but ASCII letters alone.
pub proof fn lemma_case_char(c: char)
    ensures
        is_space(ascii_lower(c)) == is_space(c),
        is_space(ascii_upper(c)) == is_space(c),
        ascii_upper(ascii_lower(c)) == ascii_upper(c),
        ascii_upper(ascii_upper(c)) == ascii_upper(c),
        ascii_lower(ascii_lower(c)) == ascii_lower(c),
        is_ascii_alnum(ascii_upper(c)) == is_ascii_alnum(c),
{
}

/// Trimming the start twice trims no more than once.
pub proof fn lemma_trim_start_shape(s: Seq<char>)
    ensures
        trim_start(s).len() == 0 || !is_space(trim_start(s)[0]),
        trim_start(trim_start(s)) == trim_start(s),
    decreases s.len(),
{
    if s.len() > 0 && is_space(s[0]) {
        lemma_trim_start_shape(s.drop_first());
    }
}

/// What trimming the end leaves is a prefix of `s` that does not end in white
/// space, and trimming it again changes nothing.
pub proof fn lemma_trim_end_shape(s: Seq<char>)
    ensures
        trim_end(s).len() <= s.len(),
        trim_end(s) == s.subrange(0, trim_end(s).len() as int),
        trim_end(s).len() == 0 || !is_space(trim_end(s).last()),
        trim_end(trim_end(s)) == trim_end(s),
    decreases s.len(),
{
    if s.len() > 0 && is_space(s.last()) {
        lemma_trim_end_shape(s.drop_last());
        assert(s.drop_last().subrange(0, trim_end(s).len() as int) =~= s.subrange(
            0,
            trim_end(s).len() as int,
        ));
    } else {
        assert(s.subrange(0, s.len() as int) =~= s);
    }
}

/// Trimming is idempotent.
pub proof fn lemma_trimmed_idempotent(s: Seq<char>)
    ensures
        trimmed(trimmed(s)) == trimmed(s),
{
    let t = trim_start(s);
    let u = trim_end(t);
    lemma_trim_start_shape(s);
    lemma_trim_end_shape(t);
    if u.len() > 0 {
        assert(u[0] == t[0]);
    }
    assert(trim_start(u) == u);
}

/// A character map that keeps white space commutes with trimming the start.
proof fn lemma_trim_start_map(s: Seq<char>, f: spec_fn(char) -> char)
    requires
        forall|c: char| #[trigger] is_space(f(c)) == is_space(c),
    ensures
        trim_start(s.map_values(f)) == trim_start(s).map_values(f),
    decreases s.len(),
{
    let m = s.map_values(f);
    if s.len() > 0 && is_space(s[0]) {
        assert(is_space(m[0]));
        assert(m.drop_first() =~= s.drop_first().map_values(f));
        lemma_trim_start_map(s.drop_first(), f);
    } else if s.len() > 0 {
        assert(!is_space(m[0]));
    } else {
        assert(m =~= s.map_values(f));
    }
}

/// A character map that keeps white space commutes with trimming the end.
proof fn lemma_trim_end_map(s: Seq<char>, f: spec_fn(char) -> char)
    requires
        forall|c: char| #[trigger] is_space(f(c)) == is_space(c),
    ensures
        trim_end(s.map_values(f)) == trim_end(s).map_values(f),
    decreases s.len(),
{
    let m = s.map_values(f);
    if s.len() > 0 && is_space(s.last()) {
        assert(is_space(m.last()));
        assert(m.drop_last() =~= s.drop_last().map_values(f));
        lemma_trim_end_map(s.drop_last(), f);
    } else if s.len() > 0 {
        assert(!is_space(m.last()));
    }
}

/// Lower-casing commutes with trimming.
pub proof fn lemma_trimmed_lowercase(s: Seq<char>)
    ensures
        trimmed(ascii_lowercase(s)) == ascii_lowercase(trimmed(s)),
{
    let f = |c: char| ascii_lower(c);
    assert forall|c: char| #[trigger] is_space(f(c)) == is_space(c) by {
        lemma_case_char(c);
    }
    lemma_trim_start_map(s, f);
    lemma_trim_end_map(trim_start(s), f);
    assert(ascii_lowercase(s) =~= s.map_values(f));
    assert(ascii_lowercase(trimmed(s)) =~= trimmed(s).map_values(f));
}

/// Upper-casing commutes with trimming.
pub proof fn lemma_trimmed_uppercase(s: Seq<char>)
    ensures
        trimmed(ascii_uppercase(s)) == ascii_uppercase(trimmed(s)),
{
    let f = |c: char| ascii_upper(c);
    assert forall|c: char| #[trigger] is_space(f(c)) == is_space(c) by {
        lemma_case_char(c);
    }
    lemma_trim_start_map(s, f);
    lemma_trim_end_map(trim_start(s), f);
    assert(ascii_uppercase(s) =~= s.map_values(f));
    assert(ascii_uppercase(trimmed(s)) =~= trimmed(s).map_values(f));
}

/// Upper-casing forgets a lower-casing done before it, and is idempotent.
pub proof fn lemma_uppercase_absorbs(s: Seq<char>)
    ensures
        ascii_uppercase(ascii_lowercase(s)) == ascii_uppercase(s),
        ascii_uppercase(ascii_uppercase(s)) == ascii_uppercase(s),
{
    assert forall|i: int| 0 <= i < s.len() implies ascii_upper(ascii_lower(#[trigger] s[i]))
        == ascii_upper(s[i]) && ascii_upper(ascii_upper(s[i])) == ascii_upper(s[i]) by {
        lemma_case_char(s[i]);
    }
    assert(ascii_uppercase(ascii_lowercase(s)) =~= ascii_uppercase(s));
    assert(ascii_uppercase(ascii_uppercase(s)) =~= ascii_uppercase(s));
}

/// Lower-casing is idempotent.
pub proof fn lemma_lowercase_idempotent(s: Seq<char>)
    ensures
        ascii_lowercase(ascii_lowercase(s)) == ascii_lowercase(s),
{
    assert forall|i: int| 0 <= i < s.len() implies ascii_lower(ascii_lower(#[trigger] s[i]))
        == ascii_lower(s[i]) by {
        lemma_case_char(s[i]);
    }
    assert(ascii_lowercase(ascii_lowercase(s)) =~= ascii_lowercase(s));
}

} // verus!
