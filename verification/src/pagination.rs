//! The pagination window of the post listing.
//!
//! A listing request may carry a page number and a page size, each of them
//! absent or malformed. Resolution never fails: what is missing, not a
//! number, or not positive falls back to its default, and what is too large
//! is clamped. The resolved window gives the offset and limit of the query.

use vstd::prelude::*;
use crate::text::{chars_of, text_view};

verus! {

/// The page shown when none is asked for.
pub const DEFAULT_PAGE: u64 = 1;

/// The page size used when none is asked for, unless configured otherwise.
pub const DEFAULT_POSTS_PER_PAGE: u64 = 5;

/// The largest page size served, unless configured otherwise.
pub const MAX_POSTS_PER_PAGE: u64 = 100;

/// Whether `c` is one of the ten decimal digits.
pub open spec fn is_digit(c: char) -> bool {
    '0' <= c <= '9'
}

/// The number that the digit `c` stands for.
pub open spec fn digit_value(c: char) -> nat
    recommends
        is_digit(c),
{
    (c as u32 - '0' as u32) as nat
}

/// Whether `s` is a numeral: one decimal digit or more, and nothing else.
pub open spec fn is_numeral(s: Seq<char>) -> bool {
    &&& s.len() > 0
    &&& forall|i: int| 0 <= i < s.len() ==> is_digit(#[trigger] s[i])
}

/// The number that the digits of `s` write in base ten.
pub open spec fn decimal_value(s: Seq<char>) -> nat
    decreases s.len(),
{
    if s.len() == 0 {
        0
    } else {
        10 * decimal_value(s.drop_last()) + digit_value(s.last())
    }
}

/// The number a raw query value asks for, if it is a numeral.
pub open spec fn requested(raw: Option<Seq<char>>) -> Option<nat> {
    match raw {
        Some(s) => if is_numeral(s) {
            Some(decimal_value(s))
        } else {
            None
        },
        None => None,
    }
}

/// `n`, or `u64::MAX` where `n` is larger than that.
pub open spec fn saturated(n: nat) -> u64 {
    if n <= u64::MAX {
        n as u64
    } else {
        u64::MAX
    }
}

/// The number that a raw query value can be read as, saturated to 64 bits.
pub open spec fn parsed(raw: Option<Seq<char>>) -> Option<u64> {
    match requested(raw) {
        Some(n) => Some(saturated(n)),
        None => None,
    }
}

/// The page number and page size of a listing request, as far as the query
/// gave them as numbers.
#[derive(Debug, Clone, Copy, PartialEq, Eq)]
pub struct Params {
    pub page: Option<u64>,
    pub posts_per_page: Option<u64>,
}

/// The default and the largest page size.
#[derive(Debug, Clone, Copy, PartialEq, Eq)]
pub struct PageLimits {
    default_size: u64,
    max_size: u64,
}

/// A resolved pagination window: a page number and a page size, both at
/// least one, whose offset fits in 64 bits.
#[derive(Debug, Clone, Copy, PartialEq, Eq)]
pub struct PageRequest {
    page: u64,
    posts_per_page: u64,
}

/// The page that a request for `asked` resolves to: page one where nothing
/// positive was asked for, else the page asked for, clamped to `max_page`.
pub open spec fn resolved_page(asked: Option<nat>, max_page: int) -> int {
    match asked {
        Some(n) => if n == 0 {
            1
        } else if n > max_page {
            max_page
        } else {
            n as int
        },
        None => 1,
    }
}

/// The page size that a request for `asked` resolves to: `default_size` where
/// nothing positive was asked for, else the size asked for, clamped to
/// `max_size`.
pub open spec fn resolved_size(asked: Option<nat>, default_size: int, max_size: int) -> int {
    match asked {
        Some(n) => if n == 0 {
            default_size
        } else if n > max_size {
            max_size
        } else {
            n as int
        },
        None => default_size,
    }
}

/// The number of pages that `total` posts fill at `size` posts a page.
pub open spec fn pages_needed(total: int, size: int) -> int
    recommends
        total >= 0,
        size >= 1,
{
    (total + size - 1) / size
}

/// A `u64` option as an option of the natural number it holds.
pub open spec fn as_asked(n: Option<u64>) -> Option<nat> {
    match n {
        Some(v) => Some(v as nat),
        None => None,
    }
}

/// Appending a digit multiplies the number written by ten and adds the digit.
proof fn lemma_decimal_value_push(s: Seq<char>, c: char)
    ensures
        decimal_value(s.push(c)) == 10 * decimal_value(s) + digit_value(c),
        decimal_value(s.push(c)) >= decimal_value(s),
{
    assert(s.push(c).drop_last() == s);
    assert(s.push(c).last() == c);
}

/// Reads the characters of `chars` from `from` up to `to` as a decimal
/// number. Gives `None` unless they are a numeral, and `u64::MAX` for a
/// numeral that writes a larger number.
pub fn parse_digits(chars: &Vec<char>, from: usize, to: usize) -> (r: Option<u64>)
    requires
        from <= to <= chars.len(),
    ensures
        r == parsed(Some(chars@.subrange(from as int, to as int))),
{
    let ghost all = chars@.subrange(from as int, to as int);
    if from == to {
        return None;
    }
    let mut acc: u64 = 0;
    let mut i: usize = from;
    while i < to
        invariant
            from <= i <= to <= chars.len(),
            all == chars@.subrange(from as int, to as int),
            forall|j: int| 0 <= j < i - from ==> is_digit(#[trigger] all[j]),
            acc == saturated(decimal_value(all.subrange(0, i - from))),
        decreases to - i,
    {
        let c: char = chars[i];
        if !('0' <= c && c <= '9') {
            assert(all[i - from] == c);
            return None;
        }
        let d: u64 = (c as u32 - '0' as u32) as u64;
        proof {
            let seen = all.subrange(0, i - from);
            lemma_decimal_value_push(seen, c);
            assert(all.subrange(0, i + 1 - from) == seen.push(c));
        }
        acc = match acc.checked_mul(10) {
            Some(m) => match m.checked_add(d) {
                Some(v) => v,
                None => u64::MAX,
            },
            None => u64::MAX,
        };
        i += 1;
    }
    assert(all.subrange(0, to - from) == all);
    Some(acc)
}

/// Reads `s` as a decimal number. Gives `None` unless `s` is a numeral, and
/// `u64::MAX` for a numeral that writes a larger number.
pub fn parse_count(s: &str) -> (r: Option<u64>)
    ensures
        r == parsed(Some(s@)),
{
    let chars = chars_of(s);
    assert(chars@.subrange(0, chars@.len() as int) == s@);
    parse_digits(&chars, 0, chars.len())
}

impl Params {
    /// Reads the raw values of a query: what is absent or no numeral is
    /// `None`.
    pub fn parse(raw_page: Option<&str>, raw_posts_per_page: Option<&str>) -> (p: Params)
        ensures
            p.page == parsed(text_view(raw_page)),
            p.posts_per_page == parsed(text_view(raw_posts_per_page)),
    {
        let page = match raw_page {
            Some(s) => parse_count(s),
            None => None,
        };
        let posts_per_page = match raw_posts_per_page {
            Some(s) => parse_count(s),
            None => None,
        };
        Params { page, posts_per_page }
    }

    /// Resolves the window that these parameters ask for under `limits`.
    pub fn resolve(&self, limits: &PageLimits) -> (r: PageRequest)
        requires
            limits.wf(),
        ensures
            r.wf(),
            r.page_number() == resolved_page(as_asked(self.page), limits.max_page()),
            r.size() == resolved_size(
                as_asked(self.posts_per_page),
                limits.default_size(),
                limits.max_size(),
            ),
    {
        let max_page: u64 = limits.last_page();
        let page: u64 = match self.page {
            Some(n) => if n == 0 {
                DEFAULT_PAGE
            } else if n > max_page {
                max_page
            } else {
                n
            },
            None => DEFAULT_PAGE,
        };
        let posts_per_page: u64 = match self.posts_per_page {
            Some(n) => if n == 0 {
                limits.default_size
            } else if n > limits.max_size {
                limits.max_size
            } else {
                n
            },
            None => limits.default_size,
        };
        proof {
            lemma_window_fits(page as int, posts_per_page as int, limits.max_size as int);
        }
        PageRequest { page, posts_per_page }
    }
}

/// A window of a page up to `u64::MAX / max_size` and a size up to
/// `max_size` has an offset that fits in 64 bits.
proof fn lemma_window_fits(page: int, size: int, max_size: int)
    requires
        1 <= page <= u64::MAX / (max_size as u64),
        1 <= size <= max_size <= u64::MAX,
    ensures
        0 <= (page - 1) * size <= u64::MAX,
{
    let q = (u64::MAX as int) / max_size;
    assert(q * max_size <= u64::MAX) by (nonlinear_arith)
        requires
            q == (u64::MAX as int) / max_size,
            max_size >= 1,
    ;
    assert((page - 1) * size <= q * max_size) by (nonlinear_arith)
        requires
            0 <= page - 1 <= q,
            0 <= size <= max_size,
    ;
    assert(0 <= (page - 1) * size) by (nonlinear_arith)
        requires
            0 <= page - 1,
            0 <= size,
    ;
}

impl PageLimits {
    /// The page size used when none is asked for.
    pub closed spec fn default_size(self) -> int {
        self.default_size as int
    }

    /// The largest page size served.
    pub closed spec fn max_size(self) -> int {
        self.max_size as int
    }

    /// The limits are usable: the default is at least one and at most the
    /// maximum.
    pub closed spec fn wf(self) -> bool {
        1 <= self.default_size <= self.max_size
    }

    /// Usable limits are at least one.
    pub proof fn lemma_positive(self)
        requires
            self.wf(),
        ensures
            1 <= self.default_size() <= self.max_size() <= u64::MAX,
    {
    }

    /// The largest page number served: the last one whose offset fits in 64
    /// bits at the largest page size.
    pub open spec fn max_page(self) -> int {
        u64::MAX as int / self.max_size()
    }

    /// Limits with the given default and maximum page size, if the default
    /// is at least one and at most the maximum.
    pub fn new(default_posts_per_page: u64, max_posts_per_page: u64) -> (r: Option<PageLimits>)
        ensures
            r is Some <==> 1 <= default_posts_per_page <= max_posts_per_page,
            r matches Some(l) ==> l.wf() && l.default_size() == default_posts_per_page
                && l.max_size() == max_posts_per_page,
    {
        if 1 <= default_posts_per_page && default_posts_per_page <= max_posts_per_page {
            Some(PageLimits { default_size: default_posts_per_page, max_size: max_posts_per_page })
        } else {
            None
        }
    }

    /// The limits used where nothing else is configured.
    pub fn standard() -> (l: PageLimits)
        ensures
            l.wf(),
            l.default_size() == DEFAULT_POSTS_PER_PAGE,
            l.max_size() == MAX_POSTS_PER_PAGE,
    {
        PageLimits { default_size: DEFAULT_POSTS_PER_PAGE, max_size: MAX_POSTS_PER_PAGE }
    }

    /// The page size used when none is asked for.
    pub fn default_posts_per_page(&self) -> (n: u64)
        ensures
            n == self.default_size(),
    {
        self.default_size
    }

    /// The largest page size served.
    pub fn max_posts_per_page(&self) -> (n: u64)
        ensures
            n == self.max_size(),
    {
        self.max_size
    }

    /// The largest page number served.
    pub fn last_page(&self) -> (n: u64)
        requires
            self.wf(),
        ensures
            n == self.max_page(),
            n >= 1,
    {
        assert(u64::MAX as int / self.max_size as int >= 1) by (nonlinear_arith)
            requires
                1 <= self.max_size as int <= u64::MAX as int,
        ;
        u64::MAX / self.max_size
    }
}

impl PageRequest {
    /// The page number, counted from one.
    pub closed spec fn page_number(self) -> int {
        self.page as int
    }

    /// The page size.
    pub closed spec fn size(self) -> int {
        self.posts_per_page as int
    }

    /// Page number and page size are at least one, and the offset fits in
    /// 64 bits.
    pub closed spec fn wf(self) -> bool {
        &&& 1 <= self.page
        &&& 1 <= self.posts_per_page
        &&& (self.page - 1) * self.posts_per_page <= u64::MAX
    }

    /// The number of posts that the pages before this one hold.
    pub open spec fn window_offset(self) -> int {
        (self.page_number() - 1) * self.size()
    }

    /// A resolved window is never degenerate.
    pub proof fn lemma_positive(self)
        requires
            self.wf(),
        ensures
            self.page_number() >= 1,
            self.size() >= 1,
            0 <= self.window_offset() <= u64::MAX,
    {
        assert(0 <= (self.page - 1) * self.posts_per_page) by (nonlinear_arith)
            requires
                0 <= self.page - 1,
                0 <= self.posts_per_page,
        ;
    }

    /// The page number, counted from one.
    pub fn page(&self) -> (n: u64)
        ensures
            n == self.page_number(),
    {
        self.page
    }

    /// The page size.
    pub fn posts_per_page(&self) -> (n: u64)
        ensures
            n == self.size(),
    {
        self.posts_per_page
    }

    /// How many posts to skip: `(page - 1) * posts_per_page`.
    pub fn offset(&self) -> (n: u64)
        requires
            self.wf(),
        ensures
            n == self.window_offset(),
    {
        proof {
            self.lemma_positive();
        }
        (self.page - 1) * self.posts_per_page
    }

    /// How many posts to take at most: the page size.
    pub fn limit(&self) -> (n: u64)
        ensures
            n == self.size(),
    {
        self.posts_per_page
    }

    /// The number of pages that `total` posts fill at this page size.
    pub fn page_count(&self, total: u64) -> (n: u64)
        requires
            self.wf(),
        ensures
            n == pages_needed(total as int, self.size()),
    {
        let size: u64 = self.posts_per_page;
        let whole: u64 = total / size;
        let rest: u64 = total % size;
        proof {
            lemma_pages_needed(total as int, size as int);
        }
        if rest == 0 {
            whole
        } else {
            whole + 1
        }
    }
}

/// Rounding a quotient up adds one exactly where a remainder is left.
proof fn lemma_pages_needed(total: int, size: int)
    requires
        0 <= total <= u64::MAX,
        1 <= size,
    ensures
        pages_needed(total, size) == total / size + if total % size == 0 {
            0int
        } else {
            1int
        },
        total % size != 0 ==> total / size < u64::MAX,
{
    let q = total / size;
    let r = total % size;
    assert(total == q * size + r && 0 <= r < size) by (nonlinear_arith)
        requires
            q == total / size,
            r == total % size,
            size >= 1,
    ;
    if r == 0 {
        assert((q * size + size - 1) / size == q) by (nonlinear_arith)
            requires
                size >= 1,
        ;
    } else {
        assert((q * size + r + size - 1) / size == q + 1) by (nonlinear_arith)
            requires
                size >= 1,
                1 <= r < size,
        ;
        assert(q < total) by (nonlinear_arith)
            requires
                total == q * size + r,
                r >= 1,
                size >= 1,
                q >= 0,
        ;
    }
}

/// Resolves the raw page number and page size of a listing request into a
/// window. Never fails: a value that is absent, no numeral or zero gives its
/// default (page one, the default page size), a page size above the maximum
/// gives the maximum, and a page number above the last page that can be
/// served gives that page.
pub fn resolve(
    raw_page: Option<&str>,
    raw_posts_per_page: Option<&str>,
    limits: &PageLimits,
) -> (r: PageRequest)
    requires
        limits.wf(),
    ensures
        r.wf(),
        r.page_number() == resolved_page(requested(text_view(raw_page)), limits.max_page()),
        r.size() == resolved_size(
            requested(text_view(raw_posts_per_page)),
            limits.default_size(),
            limits.max_size(),
        ),
        r.page_number() >= 1,
        r.size() >= 1,
        requested(text_view(raw_page)) is None || requested(text_view(raw_page)) == Some(0nat)
            ==> r.page_number() == 1,
        requested(text_view(raw_posts_per_page)) matches Some(n) && n > limits.max_size()
            ==> r.size() == limits.max_size(),
{
    let params = Params::parse(raw_page, raw_posts_per_page);
    let r = params.resolve(limits);
    proof {
        r.lemma_positive();
    }
    r
}

} // verus!
