//! Small verified operations on text.

use vstd::prelude::*;

verus! {

/// The decimal digits of `n`, most significant first and without leading zeros.
pub open spec fn digits(n: nat) -> Seq<char>
    decreases n,
{
    if n < 10 {
        seq![digit(n)]
    } else {
        digits(n / 10).push(digit(n % 10))
    }
}

/// The character of one decimal digit.
pub open spec fn digit(n: nat) -> char {
    (('0' as int) + n) as char
}

/// Whether `text` begins with `prefix`.
pub open spec fn begins(text: Seq<char>, prefix: Seq<char>) -> bool {
    prefix.len() <= text.len() && text.subrange(0, prefix.len() as int) == prefix
}

/// Whether `pattern` stands in `text` from position `at` on.
pub open spec fn stands_at(text: Seq<char>, pattern: Seq<char>, at: int) -> bool {
    0 <= at <= text.len() - pattern.len() && text.subrange(at, at + pattern.len()) == pattern
}

/// Whether `pattern` stands somewhere in `text`.
pub open spec fn has_text(text: Seq<char>, pattern: Seq<char>) -> bool {
    exists|at: int| stands_at(text, pattern, at)
}

/// Two texts one behind the other.
pub fn join_two(a: &str, b: &str) -> (r: String)
    ensures
        r@ == a@ + b@,
{
    let mut r: String = a.to_owned();
    r.append(b);
    r
}

/// Three texts one behind the other.
pub fn join_three(a: &str, b: &str, c: &str) -> (r: String)
    ensures
        r@ == a@ + b@ + c@,
{
    let mut r: String = join_two(a, b);
    r.append(c);
    r
}

/// Whether two texts are the same.
pub fn same_text(a: &str, b: &str) -> (r: bool)
    ensures
        r == (a@ == b@),
{
    a.to_owned() == b.to_owned()
}

/// Whether `pattern` stands in `text` from position `at` on.
fn text_at(text: &str, pattern: &str, at: usize) -> (r: bool)
    requires
        at + pattern@.len() <= text@.len(),
    ensures
        r == stands_at(text@, pattern@, at as int),
{
    let n: usize = pattern.unicode_len();
    let total: usize = text.unicode_len();
    assert(at + n <= total);
    same_text(text.substring_char(at, at + n), pattern)
}

/// Whether `text` begins with `prefix`.
pub fn begins_with(text: &str, prefix: &str) -> (r: bool)
    ensures
        r == begins(text@, prefix@),
{
    if prefix.unicode_len() <= text.unicode_len() {
        text_at(text, prefix, 0)
    } else {
        false
    }
}

/// What follows the first `n` characters of `text`.
pub fn text_after(text: &str, n: usize) -> (r: &str)
    requires
        n <= text@.len(),
    ensures
        r@ == text@.subrange(n as int, text@.len() as int),
{
    text.substring_char(n, text.unicode_len())
}

/// Whether `pattern` stands somewhere in `text`.
pub fn contains_text(text: &str, pattern: &str) -> (r: bool)
    ensures
        r == has_text(text@, pattern@),
{
    let n: usize = text.unicode_len();
    let m: usize = pattern.unicode_len();
    if m > n {
        return false;
    }
    let mut at: usize = 0;
    while at <= n - m
        invariant
            n == text@.len(),
            m == pattern@.len(),
            m <= n,
            at <= n - m + 1,
            forall|i: int| 0 <= i < at ==> !stands_at(text@, pattern@, i),
        decreases n - m + 1 - at,
    {
        if text_at(text, pattern, at) {
            return true;
        }
        if at == n - m {
            return false;
        }
        at += 1;
    }
    false
}

/// The text of one decimal digit.
fn digit_text(n: u64) -> (r: &'static str)
    requires
        n < 10,
    ensures
        r@ == seq![digit(n as nat)],
{
    proof {
        reveal_strlit("0123456789");
    }
    let r: &'static str = "0123456789".substring_char(n as usize, n as usize + 1);
    assert(r@ =~= seq![digit(n as nat)]);
    r
}

/// The decimal digits of `n`.
pub fn decimal(n: u64) -> (r: String)
    ensures
        r@ == digits(n as nat),
    decreases n,
{
    if n < 10 {
        digit_text(n).to_owned()
    } else {
        let mut r: String = decimal(n / 10);
        r.append(digit_text(n % 10));
        r
    }
}

/// The number that some digits stand for.
pub open spec fn number_of(text: Seq<char>) -> int
    decreases text.len(),
{
    if text.len() == 0 {
        0
    } else {
        10 * number_of(text.drop_last()) + (text.last() as int - '0' as int)
    }
}

/// A number is read back from its digits: they are decimal digits alone, at least one, and no zero
/// stands before others. So two numbers never share their digits.
pub proof fn law_digits(n: nat, m: nat)
    ensures
        number_of(digits(n)) == n,
        digits(n).len() > 0,
        forall|i: int| 0 <= i < digits(n).len() ==> '0' <= #[trigger] digits(n)[i] <= '9',
        n > 0 ==> digits(n)[0] != '0',
        digits(n) == digits(m) ==> n == m,
{
    lemma_digits(n);
    lemma_digits(m);
}

/// A number is read back from its digits.
proof fn lemma_digits(n: nat)
    ensures
        number_of(digits(n)) == n,
        digits(n).len() > 0,
        forall|i: int| 0 <= i < digits(n).len() ==> '0' <= #[trigger] digits(n)[i] <= '9',
        n > 0 ==> digits(n)[0] != '0',
    decreases n,
{
    reveal_with_fuel(number_of, 2);
    if n >= 10 {
        lemma_digits(n / 10);
        assert(digits(n).drop_last() =~= digits(n / 10));
        assert(digits(n)[0] == digits(n / 10)[0]);
    }
}

/// A text begins with whatever it was put behind, and with nothing of which a character differs. It
/// holds whatever stands between two others in it.
pub proof fn law_text_parts(before: Seq<char>, part: Seq<char>, after: Seq<char>, text: Seq<char>)
    ensures
        begins(part + after, part),
        begins(text, part) ==> part.len() <= text.len() && forall|i: int|
            0 <= i < part.len() ==> text[i] == part[i],
        has_text(before + part + after, part),
        has_text(text, part) ==> exists|at: int|
            0 <= at <= text.len() - part.len() && #[trigger] text.subrange(at, at + part.len())
                == part,
{
    assert((part + after).subrange(0, part.len() as int) =~= part);
    let whole = before + part + after;
    assert(whole.subrange(before.len() as int, (before.len() + part.len()) as int) =~= part);
    assert(stands_at(whole, part, before.len() as int));
    if begins(text, part) {
        assert forall|i: int| 0 <= i < part.len() implies text[i] == part[i] by {
            assert(text.subrange(0, part.len() as int)[i] == text[i]);
        }
    }
    if has_text(text, part) {
        let at = choose|at: int| stands_at(text, part, at);
        assert(text.subrange(at, at + part.len()) == part);
    }
}

} // verus!
