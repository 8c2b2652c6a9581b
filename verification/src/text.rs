//! Character and string helpers: whitespace trimming, string equality,
//! decimal parsing and formatting, and instruction-prefix stripping.

use vstd::prelude::*;
use vstd::string::StringExecFns;

verus! {

/// Whitespace, for output comparison and command tokenizing: the ASCII blanks.
pub open spec fn is_wspace(c: char) -> bool {
    c == ' ' || c == '\t' || c == '\n' || c == '\r'
}

/// `s` with every trailing whitespace character removed, and nothing else:
/// leading and internal whitespace stay as they are.
pub open spec fn trim_trailing_spec(s: Seq<char>) -> Seq<char>
    decreases s.len(),
{
    if s.len() > 0 && is_wspace(s.last()) {
        trim_trailing_spec(s.drop_last())
    } else {
        s
    }
}

pub(crate) fn wspace_char(c: char) -> (r: bool)
    ensures
        r == is_wspace(c),
{
    c == ' ' || c == '\t' || c == '\n' || c == '\r'
}

/// The longest prefix of `s` that does not end in whitespace.
pub fn trim_trailing(s: &str) -> (r: &str)
    ensures
        r@ == trim_trailing_spec(s@),
{
    let n = s.unicode_len();
    let mut end = n;
    proof {
        assert(s@.subrange(0, n as int) =~= s@);
    }
    while end > 0 && wspace_char(s.get_char(end - 1))
        invariant
            end <= n,
            n == s@.len(),
            trim_trailing_spec(s@) == trim_trailing_spec(s@.subrange(0, end as int)),
        decreases end,
    {
        proof {
            assert(s@.subrange(0, end as int).drop_last() =~= s@.subrange(0, end - 1));
        }
        end = end - 1;
    }
    proof {
        let sub = s@.subrange(0, end as int);
        if end > 0 {
            assert(sub.last() == s@[end - 1]);
        }
        assert(trim_trailing_spec(sub) == sub);
    }
    s.substring_char(0, end)
}

/// `s` with every leading whitespace character removed, and nothing else.
pub open spec fn trim_leading_spec(s: Seq<char>) -> Seq<char>
    decreases s.len(),
{
    if s.len() > 0 && is_wspace(s.first()) {
        trim_leading_spec(s.drop_first())
    } else {
        s
    }
}

/// `s` with whitespace removed from both ends.
pub open spec fn trim_ends_spec(s: Seq<char>) -> Seq<char> {
    trim_leading_spec(trim_trailing_spec(s))
}

/// The slice of `s` between its surrounding whitespace.
pub fn trim_ends(s: &str) -> (r: &str)
    ensures
        r@ == trim_ends_spec(s@),
{
    let t = trim_trailing(s);
    let n = t.unicode_len();
    let mut start: usize = 0;
    proof {
        assert(t@.subrange(0, n as int) =~= t@);
    }
    while start < n && wspace_char(t.get_char(start))
        invariant
            start <= n,
            n == t@.len(),
            trim_leading_spec(t@) == trim_leading_spec(t@.subrange(start as int, n as int)),
        decreases n - start,
    {
        proof {
            assert(t@.subrange(start as int, n as int).drop_first() =~= t@.subrange(
                start + 1,
                n as int,
            ));
        }
        start = start + 1;
    }
    proof {
        let sub = t@.subrange(start as int, n as int);
        if start < n {
            assert(sub.first() == t@[start as int]);
        }
        assert(trim_leading_spec(sub) == sub);
    }
    t.substring_char(start, n)
}

/// Character-for-character equality of two string slices.
pub fn str_eq(a: &str, b: &str) -> (r: bool)
    ensures
        r == (a@ == b@),
{
    let la = a.unicode_len();
    let lb = b.unicode_len();
    if la != lb {
        return false;
    }
    let mut i: usize = 0;
    while i < la
        invariant
            i <= la,
            la == a@.len(),
            la == b@.len(),
            forall|k: int| 0 <= k < i ==> a@[k] == b@[k],
        decreases la - i,
    {
        if a.get_char(i) != b.get_char(i) {
            return false;
        }
        i = i + 1;
    }
    proof {
        assert(a@ =~= b@);
    }
    true
}

/// A character that instruction lines may carry as a numbering prefix:
/// a decimal digit, a dot, or a space.
pub open spec fn is_listing_prefix_char(c: char) -> bool {
    is_dec_digit(c) || c == '.' || c == ' '
}

/// `s` without its longest prefix of numbering characters.
pub open spec fn strip_listing_prefix_spec(s: Seq<char>) -> Seq<char>
    decreases s.len(),
{
    if s.len() > 0 && is_listing_prefix_char(s.first()) {
        strip_listing_prefix_spec(s.drop_first())
    } else {
        s
    }
}

fn listing_prefix_char(c: char) -> (r: bool)
    ensures
        r == is_listing_prefix_char(c),
{
    let u = c as u32;
    (48 <= u && u <= 57) || c == '.' || c == ' '
}

/// Drops the leading `"1. "`-style numbering from an instruction line.
pub fn strip_listing_prefix(s: &str) -> (r: &str)
    ensures
        r@ == strip_listing_prefix_spec(s@),
{
    let n = s.unicode_len();
    let mut i: usize = 0;
    proof {
        assert(s@.subrange(0, n as int) =~= s@);
    }
    while i < n && listing_prefix_char(s.get_char(i))
        invariant
            i <= n,
            n == s@.len(),
            strip_listing_prefix_spec(s@) == strip_listing_prefix_spec(
                s@.subrange(i as int, n as int),
            ),
        decreases n - i,
    {
        proof {
            assert(s@.subrange(i as int, n as int).drop_first() =~= s@.subrange(
                i + 1,
                n as int,
            ));
        }
        i = i + 1;
    }
    proof {
        let sub = s@.subrange(i as int, n as int);
        if i < n {
            assert(sub.first() == s@[i as int]);
        }
        assert(strip_listing_prefix_spec(sub) == sub);
    }
    s.substring_char(i, n)
}

/// An ASCII decimal digit.
pub open spec fn is_dec_digit(c: char) -> bool {
    48 <= c as u32 && c as u32 <= 57
}

/// The value of one digit character.
pub open spec fn digit_val(c: char) -> nat {
    (c as u32 - 48) as nat
}

/// Every character of `s` is a decimal digit.
pub open spec fn all_dec_digits(s: Seq<char>) -> bool {
    forall|k: int| 0 <= k < s.len() ==> is_dec_digit(s[k])
}

/// The number that the digit string `s` denotes, most significant digit first.
pub open spec fn dec_val(s: Seq<char>) -> nat
    decreases s.len(),
{
    if s.len() == 0 {
        0
    } else {
        dec_val(s.drop_last()) * 10 + digit_val(s.last())
    }
}

/// Reading more digits never shrinks the denoted value.
proof fn lemma_dec_val_extend(s: Seq<char>, i: int, j: int)
    requires
        0 <= i <= j <= s.len(),
    ensures
        dec_val(s.subrange(0, i)) <= dec_val(s.subrange(0, j)),
    decreases j - i,
{
    if i < j {
        lemma_dec_val_extend(s, i, j - 1);
        assert(s.subrange(0, j).drop_last() =~= s.subrange(0, j - 1));
    }
}

/// What parsing a learner-supplied number yields: the denoted value when `s`
/// is entirely decimal digits, is not empty, and the value fits in `usize`.
pub open spec fn spec_parse_usize(s: Seq<char>) -> Option<usize> {
    if s.len() > 0 && all_dec_digits(s) && dec_val(s) <= usize::MAX {
        Some(dec_val(s) as usize)
    } else {
        None
    }
}

/// Parses a non-empty, all-digit decimal string; rejects anything else,
/// including values too large for `usize`.
pub fn parse_usize(s: &str) -> (r: Option<usize>)
    ensures
        r == spec_parse_usize(s@),
{
    let n = s.unicode_len();
    if n == 0 {
        return None;
    }
    let mut i: usize = 0;
    let mut acc: usize = 0;
    while i < n
        invariant
            i <= n,
            n == s@.len(),
            all_dec_digits(s@.subrange(0, i as int)),
            acc == dec_val(s@.subrange(0, i as int)),
        decreases n - i,
    {
        let c = s.get_char(i);
        let u = c as u32;
        if u < 48 || 57 < u {
            assert(!is_dec_digit(s@[i as int]));
            return None;
        }
        let d = (u - 48) as usize;
        proof {
            assert(s@.subrange(0, i + 1).drop_last() =~= s@.subrange(0, i as int));
            assert(s@.subrange(0, i + 1).last() == s@[i as int]);
        }
        if acc > usize::MAX / 10 || acc * 10 > usize::MAX - d {
            proof {
                assert(dec_val(s@.subrange(0, i + 1)) > usize::MAX);
                lemma_dec_val_extend(s@, i + 1, n as int);
                assert(s@.subrange(0, n as int) =~= s@);
            }
            return None;
        }
        acc = acc * 10 + d;
        proof {
            assert(forall|k: int|
                0 <= k < i + 1 ==> is_dec_digit(#[trigger] s@.subrange(0, i + 1)[k]));
        }
        i = i + 1;
    }
    proof {
        assert(s@.subrange(0, n as int) =~= s@);
    }
    Some(acc)
}

/// The digit character for a value below ten.
pub open spec fn dec_digit_char(d: nat) -> char {
    if d == 0 {
        '0'
    } else if d == 1 {
        '1'
    } else if d == 2 {
        '2'
    } else if d == 3 {
        '3'
    } else if d == 4 {
        '4'
    } else if d == 5 {
        '5'
    } else if d == 6 {
        '6'
    } else if d == 7 {
        '7'
    } else if d == 8 {
        '8'
    } else {
        '9'
    }
}

/// The decimal digit string of `n`, most significant digit first, no sign,
/// no padding.
pub open spec fn dec_chars(n: nat) -> Seq<char>
    decreases n,
{
    if n < 10 {
        seq![dec_digit_char(n)]
    } else {
        dec_chars(n / 10).push(dec_digit_char(n % 10))
    }
}

fn digit_str(d: usize) -> (r: &'static str)
    requires
        d < 10,
    ensures
        r@ == seq![dec_digit_char(d as nat)],
{
    proof {
        reveal_strlit("0");
        reveal_strlit("1");
        reveal_strlit("2");
        reveal_strlit("3");
        reveal_strlit("4");
        reveal_strlit("5");
        reveal_strlit("6");
        reveal_strlit("7");
        reveal_strlit("8");
        reveal_strlit("9");
    }
    let r: &'static str = match d {
        0 => "0",
        1 => "1",
        2 => "2",
        3 => "3",
        4 => "4",
        5 => "5",
        6 => "6",
        7 => "7",
        8 => "8",
        _ => "9",
    };
    proof {
        assert(r@ =~= seq![dec_digit_char(d as nat)]);
    }
    r
}

/// Formats `n` as its plain decimal digits, without sign or padding.
pub fn usize_to_string(n: usize) -> (r: String)
    ensures
        r@ == dec_chars(n as nat),
    decreases n,
{
    let digit = digit_str(n % 10);
    if n < 10 {
        digit.to_owned()
    } else {
        let mut prefix = usize_to_string(n / 10);
        prefix.append(digit);
        proof {
            assert(dec_chars((n / 10) as nat).push(dec_digit_char((n % 10) as nat)) =~= dec_chars(
                (n / 10) as nat,
            ) + seq![dec_digit_char((n % 10) as nat)]);
        }
        prefix
    }
}

} // verus!
