//! Text as sequences of characters: splitting, trimming and rebuilding.
use crate::utils::push_char;
use vstd::prelude::*;

verus! {

/// The characters of a string slice.
pub fn chars_of(s: &str) -> (v: Vec<char>)
    ensures
        v@ == s@,
{
    let mut v: Vec<char> = Vec::new();
    for c in it: s.chars()
        invariant
            v@ == it.seq().take(it.index() as int),
    {
        v.push(c);
        assert(v@ =~= it.seq().take(it.index() as int + 1));
    }
    v
}


/// Whether two texts are the same.
pub fn same_text(a: &str, b: &str) -> (r: bool)
    ensures
        r == (a@ == b@),
{
    let x = chars_of(a);
    let y = chars_of(b);
    if x.len() != y.len() {
        return false;
    }
    let mut i: usize = 0;
    while i < x.len()
        invariant
            x.len() == y.len(),
            x@ == a@,
            y@ == b@,
            i <= x.len(),
            forall|j: int| 0 <= j < i ==> x@[j] == y@[j],
        decreases x.len() - i,
    {
        if x[i] != y[i] {
            assert(x@[i as int] != y@[i as int]);
            assert(a@[i as int] != b@[i as int]);
            assert(a@ != b@);
            return false;
        }
        i = i + 1;
    }
    assert(x@ =~= y@);
    true
}

/// The string made of `v[lo..hi]`.
pub fn string_of(v: &Vec<char>, lo: usize, hi: usize) -> (r: String)
    requires
        lo <= hi <= v.len(),
    ensures
        r@ == v@.subrange(lo as int, hi as int),
{
    let mut r = String::new();
    let mut i = lo;
    while i < hi
        invariant
            lo <= i <= hi <= v.len(),
            r@ == v@.subrange(lo as int, i as int),
        decreases hi - i,
    {
        push_char(&mut r, v[i]);
        assert(r@ =~= v@.subrange(lo as int, i as int + 1));
        i = i + 1;
    }
    r
}

/// Classes of characters that text is trimmed of.
#[derive(Debug, Clone, Copy, PartialEq, Eq, Structural)]
pub enum CharClass {
    /// Characters with the Unicode `White_Space` property.
    WhiteSpace,
    /// The double quote.
    Quote,
    /// The double quote and the line feed.
    QuoteOrNewline,
}

/// Whether `c` has the Unicode `White_Space` property, which is what
/// `char::is_whitespace` tests.
pub open spec fn is_white_space(c: char) -> bool {
    let u = c as u32;
    ||| 0x9 <= u <= 0xD
    ||| u == 0x20
    ||| u == 0x85
    ||| u == 0xA0
    ||| u == 0x1680
    ||| 0x2000 <= u <= 0x200A
    ||| u == 0x2028
    ||| u == 0x2029
    ||| u == 0x202F
    ||| u == 0x205F
    ||| u == 0x3000
}

/// Whether `c` belongs to the class.
pub open spec fn in_class(cls: CharClass, c: char) -> bool {
    match cls {
        CharClass::WhiteSpace => is_white_space(c),
        CharClass::Quote => c == '"',
        CharClass::QuoteOrNewline => c == '"' || c == '\n',
    }
}

/// Tests whether `c` belongs to the class.
pub fn is_in_class(cls: CharClass, c: char) -> (b: bool)
    ensures
        b == in_class(cls, c),
{
    match cls {
        CharClass::WhiteSpace => {
            let u = c as u32;
            (0x9 <= u && u <= 0xD) || u == 0x20 || u == 0x85 || u == 0xA0 || u == 0x1680 || (0x2000
                <= u && u <= 0x200A) || u == 0x2028 || u == 0x2029 || u == 0x202F || u == 0x205F
                || u == 0x3000
        },
        CharClass::Quote => c == '"',
        CharClass::QuoteOrNewline => c == '"' || c == '\n',
    }
}

/// `s` without the characters of the class at its start.
pub open spec fn strip_start(s: Seq<char>, cls: CharClass) -> Seq<char>
    decreases s.len(),
{
    if s.len() > 0 && in_class(cls, s[0]) {
        strip_start(s.drop_first(), cls)
    } else {
        s
    }
}

/// `s` without the characters of the class at its end.
pub open spec fn strip_end(s: Seq<char>, cls: CharClass) -> Seq<char>
    decreases s.len(),
{
    if s.len() > 0 && in_class(cls, s.last()) {
        strip_end(s.drop_last(), cls)
    } else {
        s
    }
}

/// `s` without the characters of the class at either end, as
/// `str::trim_matches` (and, for white space, `str::trim`) gives it.
pub open spec fn trim_class(s: Seq<char>, cls: CharClass) -> Seq<char> {
    strip_end(strip_start(s, cls), cls)
}

/// The bounds of `v[lo..hi]` trimmed of the class at either end.
pub fn trim_range(v: &Vec<char>, lo: usize, hi: usize, cls: CharClass) -> (r: (usize, usize))
    requires
        lo <= hi <= v.len(),
    ensures
        lo <= r.0 <= r.1 <= hi,
        v@.subrange(r.0 as int, r.1 as int) == trim_class(v@.subrange(lo as int, hi as int), cls),
{
    let mut a = lo;
    while a < hi && is_in_class(cls, v[a])
        invariant
            lo <= a <= hi <= v.len(),
            strip_start(v@.subrange(lo as int, hi as int), cls) == strip_start(
                v@.subrange(a as int, hi as int),
                cls,
            ),
        decreases hi - a,
    {
        assert(v@.subrange(a as int, hi as int).drop_first() =~= v@.subrange(a + 1, hi as int));
        a = a + 1;
    }
    let mut b = hi;
    while b > a && is_in_class(cls, v[b - 1])
        invariant
            lo <= a <= b <= hi <= v.len(),
            strip_end(v@.subrange(a as int, hi as int), cls) == strip_end(
                v@.subrange(a as int, b as int),
                cls,
            ),
        decreases b - a,
    {
        assert(v@.subrange(a as int, b as int).drop_last() =~= v@.subrange(a as int, b - 1));
        b = b - 1;
    }
    (a, b)
}

/// The first line of `s` as `str::lines` yields it: up to the first line
/// feed, without a carriage return just before that feed; the whole of `s`
/// when it holds no line feed; empty when `s` is.
pub open spec fn first_line(s: Seq<char>) -> Seq<char> {
    if s.contains('\n') {
        let k = choose|k: int| 0 <= k < s.len() && s[k] == '\n' && !s.take(k).contains('\n');
        let line = s.take(k);
        if line.len() > 0 && line.last() == '\r' {
            line.drop_last()
        } else {
            line
        }
    } else {
        s
    }
}

/// The bounds of the first line of `v[lo..hi]`.
pub fn first_line_range(v: &Vec<char>, lo: usize, hi: usize) -> (r: (usize, usize))
    requires
        lo <= hi <= v.len(),
    ensures
        lo <= r.0 <= r.1 <= hi,
        v@.subrange(r.0 as int, r.1 as int) == first_line(v@.subrange(lo as int, hi as int)),
{
    let ghost s = v@.subrange(lo as int, hi as int);
    let mut k = lo;
    while k < hi && v[k] != '\n'
        invariant
            lo <= k <= hi <= v.len(),
            s == v@.subrange(lo as int, hi as int),
            forall|j: int| 0 <= j < k - lo ==> s[j] != '\n',
        decreases hi - k,
    {
        k = k + 1;
    }
    if k == hi {
        assert(!s.contains('\n'));
        (lo, hi)
    } else {
        let ghost kk = (k - lo) as int;
        assert(s[kk] == '\n');
        assert(s.contains('\n'));
        assert(!s.take(kk).contains('\n'));
        let ghost ch = choose|j: int| 0 <= j < s.len() && s[j] == '\n' && !s.take(j).contains('\n');
        assert(ch == kk) by {
            if ch < kk {
                assert(s[ch] == '\n');
            } else if ch > kk {
                assert(s.take(ch)[kk] == '\n');
            }
        }
        assert(s.take(kk) =~= v@.subrange(lo as int, k as int));
        if k > lo && v[k - 1] == '\r' {
            assert(s.take(kk).drop_last() =~= v@.subrange(lo as int, k - 1));
            (lo, k - 1)
        } else {
            (lo, k)
        }
    }
}

} // verus!
