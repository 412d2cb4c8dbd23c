//! Text rules of the engine: blank sources, trimming, output truncation,
//! case-insensitive identifiers and decimal numbers.

use vstd::prelude::*;
use vstd::string::*;

verus! {

/// The characters of Unicode's White_Space property, the ones that
/// `char::is_whitespace` accepts.
pub open spec fn is_white(c: char) -> bool {
    let u = c as u32;
    ||| 0x09 <= u <= 0x0d
    ||| u == 0x20
    ||| u == 0x85
    ||| u == 0xa0
    ||| u == 0x1680
    ||| 0x2000 <= u <= 0x200a
    ||| u == 0x2028
    ||| u == 0x2029
    ||| u == 0x202f
    ||| u == 0x205f
    ||| u == 0x3000
}

/// A text with nothing left once surrounding white space is trimmed.
pub open spec fn is_blank(s: Seq<char>) -> bool {
    forall|i: int| 0 <= i < s.len() ==> is_white(#[trigger] s[i])
}

/// Output cut to `max` characters, with `marker` appended when anything was cut.
pub open spec fn truncated(s: Seq<char>, max: nat, marker: Seq<char>) -> Seq<char> {
    if s.len() > max {
        s.subrange(0, max as int) + marker
    } else {
        s
    }
}

/// The code of a character with ASCII capitals taken to lower case.
pub open spec fn folded_code(c: char) -> u32 {
    if 'A' <= c <= 'Z' {
        (c as u32 + 32) as u32
    } else {
        c as u32
    }
}

/// Two texts that differ at most in the case of ASCII letters.
pub open spec fn same_ignoring_case(a: Seq<char>, b: Seq<char>) -> bool {
    &&& a.len() == b.len()
    &&& forall|i: int| 0 <= i < a.len() ==> #[trigger] folded_code(a[i]) == folded_code(b[i])
}

pub open spec fn digit_char(d: nat) -> char {
    if d == 0 { '0' }
    else if d == 1 { '1' }
    else if d == 2 { '2' }
    else if d == 3 { '3' }
    else if d == 4 { '4' }
    else if d == 5 { '5' }
    else if d == 6 { '6' }
    else if d == 7 { '7' }
    else if d == 8 { '8' }
    else { '9' }
}

/// The decimal notation of a natural number, without leading zeros.
pub open spec fn decimal(n: nat) -> Seq<char>
    decreases n,
{
    if n < 10 {
        seq![digit_char(n)]
    } else {
        decimal(n / 10).push(digit_char(n % 10))
    }
}

pub fn is_white_char(c: char) -> (r: bool)
    ensures
        r == is_white(c),
{
    let u = c as u32;
    (0x09 <= u && u <= 0x0d) || u == 0x20 || u == 0x85 || u == 0xa0 || u == 0x1680 || (0x2000
        <= u && u <= 0x200a) || u == 0x2028 || u == 0x2029 || u == 0x202f || u == 0x205f || u
        == 0x3000
}

/// Whether `s` holds white space only (the empty text included).
pub fn is_blank_text(s: &str) -> (r: bool)
    ensures
        r == is_blank(s@),
{
    let n = s.unicode_len();
    let mut i: usize = 0;
    while i < n
        invariant
            n == s@.len(),
            i <= n,
            forall|j: int| 0 <= j < i ==> is_white(#[trigger] s@[j]),
        decreases n - i,
    {
        if !is_white_char(s.get_char(i)) {
            return false;
        }
        i = i + 1;
    }
    true
}

/// The text `s` with leading and trailing white space removed.
pub open spec fn trimmed(s: Seq<char>) -> Seq<char> {
    if is_blank(s) {
        Seq::empty()
    } else {
        let lo = choose|lo: int|
            0 <= lo < s.len() && !is_white(s[lo]) && forall|j: int|
                0 <= j < lo ==> is_white(#[trigger] s[j]);
        let hi = choose|hi: int|
            0 <= hi < s.len() && !is_white(s[hi]) && forall|j: int|
                hi < j < s.len() ==> is_white(#[trigger] s[j]);
        s.subrange(lo, hi + 1)
    }
}

/// `s` without surrounding white space, as `str::trim` gives it.
pub fn trim_text(s: &str) -> (r: String)
    ensures
        r@ == trimmed(s@),
        is_blank(s@) <==> r@.len() == 0,
{
    let n = s.unicode_len();
    let mut lo: usize = 0;
    while lo < n && is_white_char(s.get_char(lo))
        invariant
            n == s@.len(),
            lo <= n,
            forall|j: int| 0 <= j < lo ==> is_white(#[trigger] s@[j]),
        decreases n - lo,
    {
        lo = lo + 1;
    }
    if lo == n {
        return String::new();
    }
    let mut hi: usize = n - 1;
    while hi > lo && is_white_char(s.get_char(hi))
        invariant
            n == s@.len(),
            lo <= hi < n,
            !is_white(s@[lo as int]),
            forall|j: int| hi < j < n ==> is_white(#[trigger] s@[j]),
        decreases hi,
    {
        hi = hi - 1;
    }
    proof {
        assert(!is_white(s@[hi as int]));
        assert(!is_blank(s@)) by {
            assert(!is_white(s@[lo as int]));
        }
        let clo = choose|x: int|
            0 <= x < s@.len() && !is_white(s@[x]) && forall|j: int|
                0 <= j < x ==> is_white(#[trigger] s@[j]);
        let chi = choose|x: int|
            0 <= x < s@.len() && !is_white(s@[x]) && forall|j: int|
                x < j < s@.len() ==> is_white(#[trigger] s@[j]);
        assert(0 <= clo < s@.len() && !is_white(s@[clo]) && forall|j: int|
            0 <= j < clo ==> is_white(#[trigger] s@[j]));
        assert(0 <= chi < s@.len() && !is_white(s@[chi]) && forall|j: int|
            chi < j < s@.len() ==> is_white(#[trigger] s@[j]));
        if clo < lo {
            assert(is_white(s@[clo]));
        }
        if lo < clo {
            assert(is_white(s@[lo as int]));
        }
        if chi < hi {
            assert(is_white(s@[hi as int]));
        }
        if hi < chi {
            assert(is_white(s@[chi]));
        }
    }
    String::from_str(s.substring_char(lo, hi + 1))
}

/// Output cut to `max` characters, with `marker` appended when cut.
pub fn truncate_output(s: String, max: usize, marker: &str) -> (r: String)
    ensures
        r@ == truncated(s@, max as nat, marker@),
{
    let n = s.unicode_len();
    if n > max {
        let head = String::from_str(s.as_str().substring_char(0, max));
        head.concat(marker)
    } else {
        s
    }
}

/// Truncating output that was already truncated changes nothing.
pub proof fn lemma_truncation_idempotent(s: Seq<char>, max: nat, marker: Seq<char>)
    ensures
        truncated(truncated(s, max, marker), max, marker) == truncated(s, max, marker),
{
    let t = truncated(s, max, marker);
    if s.len() > max {
        if t.len() > max {
            assert(t.subrange(0, max as int) =~= s.subrange(0, max as int));
        } else {
            assert(marker.len() == 0);
            assert(t =~= s.subrange(0, max as int));
        }
    }
}

/// Output of exactly `max` characters is kept whole; one character more and
/// it is cut to `max` characters followed by the marker.
pub proof fn lemma_truncation_boundary(s: Seq<char>, max: nat, marker: Seq<char>)
    ensures
        s.len() == max ==> truncated(s, max, marker) == s,
        s.len() == max + 1 ==> {
            &&& truncated(s, max, marker) == s.subrange(0, max as int) + marker
            &&& truncated(s, max, marker).len() == max + marker.len()
        },
{
}

/// Case-insensitive comparison for ASCII letters.
pub fn eq_ignoring_case(a: &str, b: &str) -> (r: bool)
    ensures
        r == same_ignoring_case(a@, b@),
{
    let n = a.unicode_len();
    if n != b.unicode_len() {
        return false;
    }
    let mut i: usize = 0;
    while i < n
        invariant
            n == a@.len(),
            n == b@.len(),
            i <= n,
            forall|j: int| 0 <= j < i ==> #[trigger] folded_code(a@[j]) == folded_code(b@[j]),
        decreases n - i,
    {
        let x = a.get_char(i);
        let y = b.get_char(i);
        let fx: u32 = if 'A' <= x && x <= 'Z' { x as u32 + 32 } else { x as u32 };
        let fy: u32 = if 'A' <= y && y <= 'Z' { y as u32 + 32 } else { y as u32 };
        if fx != fy {
            assert(folded_code(a@[i as int]) != folded_code(b@[i as int]));
            return false;
        }
        i = i + 1;
    }
    true
}

fn digit_text(d: u32) -> (r: &'static str)
    requires
        d < 10,
    ensures
        r@ == seq![digit_char(d as nat)],
{
    proof {
        reveal_strlit("0");
        reveal_strlit("1");
        reveal_strlit("2");
        reveal_strlit("3");
        reveal_strlit("4");
        reveal_strlit("5");
        reveal_strlit("6");
        reveal_strlit("7");
        reveal_strlit("8");
        reveal_strlit("9");
    }
    match d {
        0 => "0",
        1 => "1",
        2 => "2",
        3 => "3",
        4 => "4",
        5 => "5",
        6 => "6",
        7 => "7",
        8 => "8",
        _ => "9",
    }
}

/// The decimal notation of `n`.
pub fn decimal_text(n: u32) -> (r: String)
    ensures
        r@ == decimal(n as nat),
    decreases n,
{
    if n < 10 {
        String::from_str(digit_text(n))
    } else {
        let mut s = decimal_text(n / 10);
        s.append(digit_text(n % 10));
        s
    }
}

} // verus!
