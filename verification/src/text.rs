//! Helpers on strings, stated over their views as sequences of characters.

use vstd::prelude::*;
use vstd::std_specs::iter::IteratorSpec;

verus! {

/// Whether `c` is white space: the code points that Unicode gives the
/// property `White_Space`.
pub open spec fn is_space(c: char) -> bool {
    let n = c as u32;
    ||| 0x09 <= n <= 0x0D
    ||| n == 0x20
    ||| n == 0x85
    ||| n == 0xA0
    ||| n == 0x1680
    ||| 0x2000 <= n <= 0x200A
    ||| n == 0x2028
    ||| n == 0x2029
    ||| n == 0x202F
    ||| n == 0x205F
    ||| n == 0x3000
}

/// Whether `s` holds nothing but white space; the empty text is blank.
pub open spec fn is_blank(s: Seq<char>) -> bool {
    forall|i: int| 0 <= i < s.len() ==> is_space(#[trigger] s[i])
}

/// The view of an optional text.
pub open spec fn text_view(raw: Option<&str>) -> Option<Seq<char>> {
    match raw {
        Some(s) => Some(s@),
        None => None,
    }
}

/// The view of an optional string.
pub open spec fn field_view(field: Option<String>) -> Option<Seq<char>> {
    match field {
        Some(s) => Some(s@),
        None => None,
    }
}

/// Whether `c` is white space.
pub fn char_is_space(c: char) -> (b: bool)
    ensures
        b == is_space(c),
{
    let n: u32 = c as u32;
    (0x09 <= n && n <= 0x0D) || n == 0x20 || n == 0x85 || n == 0xA0 || n == 0x1680 || (0x2000 <= n
        && n <= 0x200A) || n == 0x2028 || n == 0x2029 || n == 0x202F || n == 0x205F || n == 0x3000
}

/// The characters of `s`, in order.
pub fn chars_of(s: &str) -> (out: Vec<char>)
    ensures
        out@ == s@,
{
    let mut out: Vec<char> = Vec::new();
    let mut it = s.chars();
    loop
        invariant
            it.obeys_prophetic_iter_laws(),
            out@ + it.remaining() == s@,
            it.decrease() is Some,
        decreases it.decrease()->0,
    {
        match it.next() {
            Some(c) => {
                out.push(c);
            },
            None => {
                return out;
            },
        }
    }
}

/// Whether `s` holds nothing but white space.
pub fn text_is_blank(s: &str) -> (b: bool)
    ensures
        b == is_blank(s@),
{
    let mut it = s.chars();
    let ghost mut seen: Seq<char> = Seq::empty();
    loop
        invariant
            it.obeys_prophetic_iter_laws(),
            seen + it.remaining() == s@,
            is_blank(seen),
            it.decrease() is Some,
        decreases it.decrease()->0,
    {
        match it.next() {
            Some(c) => {
                if !char_is_space(c) {
                    assert(s@[seen.len() as int] == c);
                    return false;
                }
                proof {
                    seen = seen.push(c);
                }
            },
            None => {
                assert(seen == s@);
                return true;
            },
        }
    }
}

/// Whether `a` and `b` hold the same characters.
pub fn same_text(a: &str, b: &str) -> (same: bool)
    ensures
        same == (a@ == b@),
{
    let mut ia = a.chars();
    let mut ib = b.chars();
    let ghost mut seen: Seq<char> = Seq::empty();
    loop
        invariant
            ia.obeys_prophetic_iter_laws(),
            ib.obeys_prophetic_iter_laws(),
            seen + ia.remaining() == a@,
            seen + ib.remaining() == b@,
            ia.decrease() is Some,
            ib.decrease() is Some,
        decreases ia.decrease()->0,
    {
        let ghost rest_a = ia.remaining();
        let ghost rest_b = ib.remaining();
        let ca = ia.next();
        let cb = ib.next();
        match (ca, cb) {
            (Some(x), Some(y)) => {
                if x != y {
                    assert(a@[seen.len() as int] == x);
                    assert(b@[seen.len() as int] == y);
                    return false;
                }
                proof {
                    seen = seen.push(x);
                }
            },
            (None, None) => {
                assert(a@ == seen);
                assert(b@ == seen);
                return true;
            },
            _ => {
                assert(a@.len() == seen.len() + rest_a.len());
                assert(b@.len() == seen.len() + rest_b.len());
                return false;
            },
        }
    }
}

} // verus!
