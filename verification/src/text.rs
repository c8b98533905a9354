//! Decimal rendering and the small string builders that the reports use.

use vstd::prelude::*;
use vstd::string::*;

verus! {

/// The ASCII digit for `d` (meaningful for `0 <= d < 10`).
pub open spec fn digit_char(d: int) -> char {
    (('0' as int) + d) as char
}

/// The canonical decimal text of `n`: no sign, no leading zero.
pub open spec fn decimal(n: nat) -> Seq<char>
    decreases n,
{
    if n < 10 {
        seq![digit_char(n as int)]
    } else {
        decimal(n / 10) + seq![digit_char((n % 10) as int)]
    }
}

fn digit_text(d: u32) -> (s: &'static str)
    requires
        d < 10,
    ensures
        s@ == seq![digit_char(d as int)],
{
    let all = "0123456789";
    proof {
        reveal_strlit("0123456789");
    }
    let s = all.substring_char(d as usize, d as usize + 1);
    assert(s@ =~= seq![digit_char(d as int)]);
    s
}

/// Renders `n` in decimal, as `Display` does for unsigned integers.
pub fn decimal_text(n: u32) -> (s: String)
    ensures
        s@ == decimal(n as nat),
    decreases n,
{
    if n < 10 {
        String::from_str(digit_text(n))
    } else {
        let mut s = decimal_text(n / 10);
        s.append(digit_text(n % 10));
        s
    }
}


/// The number that a run of decimal digits spells.
pub open spec fn digits_value(s: Seq<char>) -> int
    decreases s.len(),
{
    if s.len() == 0 {
        0
    } else {
        digits_value(s.drop_last()) * 10 + (s.last() as int - '0' as int)
    }
}

/// Every character of `s` is one of `0`..`9`.
pub open spec fn all_digits(s: Seq<char>) -> bool {
    forall|i: int| 0 <= i < s.len() ==> '0' <= #[trigger] s[i] <= '9'
}

/// Decimal text reads back as the number it was made from, is made of
/// digits only, is never empty, and starts with `0` only for zero itself.
pub proof fn lemma_decimal_reads_back(n: nat)
    ensures
        digits_value(decimal(n)) == n,
        all_digits(decimal(n)),
        decimal(n).len() >= 1,
        decimal(n)[0] == '0' <==> n == 0,
    decreases n,
{
    if n < 10 {
        assert(decimal(n).drop_last() =~= Seq::<char>::empty());
        assert(digit_char(n as int) as int == '0' as int + n);
        assert(digits_value(decimal(n).drop_last()) == 0);
    } else {
        lemma_decimal_reads_back(n / 10);
        let d = decimal(n);
        assert(d.drop_last() =~= decimal(n / 10));
        assert(digit_char((n % 10) as int) as int == '0' as int + n % 10);
        assert(d.last() == digit_char((n % 10) as int));
        assert(n == (n / 10) * 10 + n % 10);
        assert(d[0] == decimal(n / 10)[0]);
    }
}

/// `k` spaces.
pub open spec fn spaces(k: int) -> Seq<char> {
    Seq::new(if k > 0 { k as nat } else { 0 }, |i: int| ' ')
}

/// `s` right-aligned in a field of `width` characters, as `{:>width}` does.
pub open spec fn right_aligned(s: Seq<char>, width: int) -> Seq<char> {
    spaces(width - s.len()) + s
}

/// Right-aligns `s` in a field of `width` characters (longer text is kept whole).
pub fn right_align(s: &str, width: usize) -> (r: String)
    ensures
        r@ == right_aligned(s@, width as int),
{
    let len = s.unicode_len();
    let mut r = String::new();
    if len < width {
        let k = width - len;
        let mut i: usize = 0;
        while i < k
            invariant
                i <= k,
                r@ =~= spaces(i as int),
            decreases k - i,
        {
            r.append(" ");
            proof {
                reveal_strlit(" ");
            }
            assert(r@ =~= spaces(i + 1));
            i = i + 1;
        }
    }
    assert(r@ =~= spaces(width - s@.len()));
    r.append(s);
    r
}

/// `prefix`, then `n` in decimal, then `suffix`.
pub fn framed_number(prefix: &str, n: u32, suffix: &str) -> (r: String)
    ensures
        r@ == prefix@ + decimal(n as nat) + suffix@,
{
    let mut r = String::from_str(prefix);
    let d = decimal_text(n);
    r.append(d.as_str());
    r.append(suffix);
    r
}

} // verus!
