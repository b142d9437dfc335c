//! Text helpers shared by the pages and the request builders: display
//! truncation, decimal rendering of integers and path joining.

use vstd::prelude::*;

verus! {

/// The three dots appended to a shortened text.
pub open spec fn ellipsis() -> Seq<char> {
    seq!['.', '.', '.']
}

/// `s` shortened for display: when it has more than `max_len` characters it
/// keeps its first `max_len - 3` characters (none when `max_len < 3`) followed
/// by three dots; otherwise it is unchanged.
pub open spec fn truncated(s: Seq<char>, max_len: nat) -> Seq<char> {
    if s.len() > max_len {
        let keep: int = if max_len >= 3 { max_len - 3 } else { 0 };
        s.take(keep) + ellipsis()
    } else {
        s
    }
}

/// A shortened text fits in `max_len` characters when there is room for
/// the dots, starts with the text's own first characters, and a text that
/// fits is left as it is.
pub proof fn lemma_truncated_fits(s: Seq<char>, max_len: nat)
    ensures
        max_len >= 3 ==> truncated(s, max_len).len() <= max_len,
        s.len() <= max_len ==> truncated(s, max_len) == s,
        s.len() > max_len ==> truncated(s, max_len).len() == (if max_len >= 3 { max_len } else { 3 }),
        s.len() > max_len ==> s.take(truncated(s, max_len).len() - 3) == truncated(s, max_len).take(
            truncated(s, max_len).len() - 3,
        ),
{
    if s.len() > max_len {
        let keep: int = if max_len >= 3 { max_len - 3 } else { 0 };
        let t = truncated(s, max_len);
        assert(t.take(keep) =~= s.take(keep));
    }
}

/// Shortens `s` to fit `max_len` characters, marking the cut with "...".
pub fn truncate_str(s: &str, max_len: usize) -> (r: String)
    ensures
        r@ == truncated(s@, max_len as nat),
{
    let n = s.unicode_len();
    if n > max_len {
        let keep: usize = if max_len >= 3 { max_len - 3 } else { 0 };
        let prefix = s.substring_char(0, keep);
        let r = String::from_str(prefix);
        proof {
            reveal_strlit("...");
        }
        let r = r.concat("...");
        assert(r@ =~= truncated(s@, max_len as nat));
        r
    } else {
        String::from_str(s)
    }
}


/// `s` cut after its first `n` characters, three dots marking the cut; a
/// text of at most `n` characters is unchanged.
pub open spec fn clipped(s: Seq<char>, n: nat) -> Seq<char> {
    if s.len() > n {
        s.take(n as int) + ellipsis()
    } else {
        s
    }
}

/// Keeps the first `n` characters of `s`, followed by "..." when some
/// were cut.
pub fn clip_text(s: &str, n: usize) -> (r: String)
    ensures
        r@ == clipped(s@, n as nat),
{
    if s.unicode_len() > n {
        let r = String::from_str(s.substring_char(0, n));
        proof {
            reveal_strlit("...");
        }
        let r = r.concat("...");
        assert(r@ =~= clipped(s@, n as nat));
        r
    } else {
        String::from_str(s)
    }
}

/// The character of a decimal digit.
pub open spec fn digit_char(d: nat) -> char {
    if d == 0 { '0' } else if d == 1 { '1' } else if d == 2 { '2' } else if d == 3 { '3' }
    else if d == 4 { '4' } else if d == 5 { '5' } else if d == 6 { '6' } else if d == 7 { '7' }
    else if d == 8 { '8' } else { '9' }
}

/// The decimal digits of `n`, most significant first, without leading zeros
/// (a single `0` for zero).
pub open spec fn digits(n: nat) -> Seq<char>
    decreases n,
{
    if n < 10 {
        seq![digit_char(n)]
    } else {
        digits(n / 10).push(digit_char(n % 10))
    }
}

/// The decimal rendering of `x` as `to_string` writes it: a leading minus
/// sign for negative numbers, then the digits of the magnitude.
pub open spec fn decimal(x: int) -> Seq<char> {
    if x < 0 {
        seq!['-'] + digits((-x) as nat)
    } else {
        digits(x as nat)
    }
}

/// Distinct integers are written with distinct decimal texts.
pub proof fn lemma_decimal_injective(a: int, b: int)
    requires
        decimal(a) == decimal(b),
    ensures
        a == b,
{
    if a < 0 && b < 0 {
        assert(digits((-a) as nat) =~= decimal(a).drop_first());
        assert(digits((-b) as nat) =~= decimal(b).drop_first());
        lemma_digits_injective((-a) as nat, (-b) as nat);
    } else if a >= 0 && b >= 0 {
        lemma_digits_injective(a as nat, b as nat);
    } else if a < 0 {
        lemma_digits_start_with_digit(b as nat);
        assert(decimal(a)[0] == '-');
    } else {
        lemma_digits_start_with_digit(a as nat);
        assert(decimal(b)[0] == '-');
    }
}

proof fn lemma_digits_start_with_digit(n: nat)
    ensures
        digits(n).len() >= 1,
        digits(n)[0] != '-',
    decreases n,
{
    if n >= 10 {
        lemma_digits_start_with_digit(n / 10);
    }
}

proof fn lemma_digits_injective(a: nat, b: nat)
    requires
        digits(a) == digits(b),
    ensures
        a == b,
    decreases a,
{
    lemma_digits_start_with_digit(a / 10);
    lemma_digits_start_with_digit(b / 10);
    if a < 10 && b < 10 {
        assert(digits(a)[0] == digit_char(a));
        assert(digits(b)[0] == digit_char(b));
    } else if a >= 10 && b >= 10 {
        assert(digits(a).last() == digit_char(a % 10));
        assert(digits(b).last() == digit_char(b % 10));
        assert(digits(a / 10) =~= digits(a).drop_last());
        assert(digits(b / 10) =~= digits(b).drop_last());
        lemma_digits_injective(a / 10, b / 10);
    } else {
        assert(digits(a).len() != digits(b).len());
    }
}

fn digit_str(d: u64) -> (r: &'static str)
    requires
        d < 10,
    ensures
        r@ == seq![digit_char(d as nat)],
{
    proof {
        reveal_strlit("0");
        reveal_strlit("1");
        reveal_strlit("2");
        reveal_strlit("3");
        reveal_strlit("4");
        reveal_strlit("5");
        reveal_strlit("6");
        reveal_strlit("7");
        reveal_strlit("8");
        reveal_strlit("9");
    }
    let r = if d == 0 { "0" } else if d == 1 { "1" } else if d == 2 { "2" } else if d == 3 { "3" }
    else if d == 4 { "4" } else if d == 5 { "5" } else if d == 6 { "6" } else if d == 7 { "7" }
    else if d == 8 { "8" } else { "9" };
    assert(r@ =~= seq![digit_char(d as nat)]);
    r
}

fn push_digits(out: &mut String, n: u64)
    ensures
        final(out)@ == old(out)@ + digits(n as nat),
    decreases n,
{
    if n >= 10 {
        push_digits(out, n / 10);
    }
    out.append(digit_str(n % 10));
    proof {
        if n >= 10 {
            assert(digits(n as nat) == digits((n / 10) as nat).push(digit_char((n % 10) as nat)));
        }
        assert(final(out)@ =~= old(out)@ + digits(n as nat));
    }
}

/// Renders an unsigned integer in decimal.
pub fn u64_to_decimal(n: u64) -> (r: String)
    ensures
        r@ == digits(n as nat),
{
    let mut r = String::new();
    push_digits(&mut r, n);
    assert(r@ =~= digits(n as nat));
    r
}

/// Renders a signed integer in decimal, as `to_string` does.
pub fn i64_to_decimal(x: i64) -> (r: String)
    ensures
        r@ == decimal(x as int),
{
    if x < 0 {
        let magnitude: u64 = (0i128 - (x as i128)) as u64;
        proof {
            reveal_strlit("-");
        }
        let mut r = String::from_str("-");
        push_digits(&mut r, magnitude);
        assert(r@ =~= decimal(x as int));
        r
    } else {
        u64_to_decimal(x as u64)
    }
}

/// Renders a 32-bit signed integer in decimal, as `to_string` does.
pub fn i32_to_decimal(x: i32) -> (r: String)
    ensures
        r@ == decimal(x as int),
{
    i64_to_decimal(x as i64)
}

/// `dir` joined with the relative file name `name` as a Unix path: a `/` is
/// put between them unless `dir` is empty or already ends with one.
pub open spec fn joined_path(dir: Seq<char>, name: Seq<char>) -> Seq<char> {
    if dir.len() == 0 || dir.last() == '/' {
        dir + name
    } else {
        dir + seq!['/'] + name
    }
}

/// Joins a directory and a relative file name.
pub fn join_path(dir: &str, name: &str) -> (r: String)
    ensures
        r@ == joined_path(dir@, name@),
{
    let n = dir.unicode_len();
    let mut r = String::from_str(dir);
    if n == 0 || dir.get_char(n - 1) == '/' {
        r.append(name);
    } else {
        proof {
            reveal_strlit("/");
        }
        r.append("/");
        r.append(name);
    }
    assert(r@ =~= joined_path(dir@, name@));
    r
}


/// Compares two strings character by character.
pub fn str_eq(a: &str, b: &str) -> (r: bool)
    ensures
        r == (a@ == b@),
{
    let n = a.unicode_len();
    let m = b.unicode_len();
    if n != m {
        return false;
    }
    let mut i: usize = 0;
    while i < n
        invariant
            n == a@.len(),
            m == b@.len(),
            n == m,
            i <= n,
            forall|j: int| 0 <= j < i ==> a@[j] == b@[j],
        decreases n - i,
    {
        if a.get_char(i) != b.get_char(i) {
            return false;
        }
        i = i + 1;
    }
    assert(a@ =~= b@);
    true
}


/// Appends a character to a string (`String::push`).
#[verifier::external_body]
pub(crate) fn push_char(s: &mut String, c: char)
    ensures
        final(s)@ == old(s)@.push(c),
{
    s.push(c)
}

/// Removes the last character of a string (`String::pop`): the character
/// removed, or nothing when the string is empty.
#[verifier::external_body]
pub(crate) fn pop_char(s: &mut String) -> (r: Option<char>)
    ensures
        old(s)@.len() == 0 ==> r is None && final(s)@ == old(s)@,
        old(s)@.len() > 0 ==> r == Some(old(s)@.last()) && final(s)@ == old(s)@.drop_last(),
{
    s.pop()
}

} // verus!
