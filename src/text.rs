use vstd::prelude::*;

verus! {

/// Whether a character has the Unicode White_Space property, the set that
/// `char::is_whitespace` and `str::trim` go by.
pub open spec fn is_white(c: char) -> bool {
    let u = c as u32;
    ||| 0x09 <= u <= 0x0d
    ||| u == 0x20
    ||| u == 0x85
    ||| u == 0xa0
    ||| u == 0x1680
    ||| 0x2000 <= u <= 0x200a
    ||| u == 0x2028
    ||| u == 0x2029
    ||| u == 0x202f
    ||| u == 0x205f
    ||| u == 0x3000
}

/// Whether a character has the Unicode White_Space property.
pub fn white(c: char) -> (r: bool)
    ensures
        r == is_white(c),
{
    let u = c as u32;
    (0x09 <= u && u <= 0x0d) || u == 0x20 || u == 0x85 || u == 0xa0 || u == 0x1680 || (0x2000
        <= u && u <= 0x200a) || u == 0x2028 || u == 0x2029 || u == 0x202f || u == 0x205f || u
        == 0x3000
}

/// The text without its leading white space.
pub open spec fn trim_start(s: Seq<char>) -> Seq<char>
    decreases s.len(),
{
    if s.len() > 0 && is_white(s[0]) {
        trim_start(s.drop_first())
    } else {
        s
    }
}

/// The text without its trailing white space.
pub open spec fn trim_end(s: Seq<char>) -> Seq<char>
    decreases s.len(),
{
    if s.len() > 0 && is_white(s.last()) {
        trim_end(s.drop_last())
    } else {
        s
    }
}

/// The text without leading and trailing white space.
pub open spec fn trim(s: Seq<char>) -> Seq<char> {
    trim_end(trim_start(s))
}

/// Whether the text holds nothing but white space.
pub open spec fn is_blank(s: Seq<char>) -> bool {
    trim(s).len() == 0
}

/// Removes leading and trailing white space.
pub fn trim_text(s: &str) -> (r: &str)
    ensures
        r@ == trim(s@),
{
    let n = s.unicode_len();
    let mut a: usize = 0;
    assert(s@.subrange(0, n as int) =~= s@);
    while a < n && white(s.get_char(a))
        invariant
            n == s@.len(),
            a <= n,
            trim_start(s@.subrange(a as int, n as int)) == trim_start(s@),
        decreases n - a,
    {
        assert(s@.subrange(a as int, n as int).drop_first() =~= s@.subrange(a + 1, n as int));
        a = a + 1;
    }
    assert(trim_start(s@) == s@.subrange(a as int, n as int));
    let mut b: usize = n;
    while b > a && white(s.get_char(b - 1))
        invariant
            n == s@.len(),
            a <= b <= n,
            trim_end(s@.subrange(a as int, b as int)) == trim(s@),
        decreases b,
    {
        assert(s@.subrange(a as int, b as int).drop_last() =~= s@.subrange(a as int, b - 1));
        b = b - 1;
    }
    s.substring_char(a, b)
}

} // verus!
