//! Text building: decimal numbers and the quoted form of a name.

use vstd::prelude::*;
use vstd::string::StringExecFns;

verus! {

/// The decimal digit `d` as text.
pub open spec fn digit(d: int) -> Seq<char> {
    if d == 0 {
        "0"@
    } else if d == 1 {
        "1"@
    } else if d == 2 {
        "2"@
    } else if d == 3 {
        "3"@
    } else if d == 4 {
        "4"@
    } else if d == 5 {
        "5"@
    } else if d == 6 {
        "6"@
    } else if d == 7 {
        "7"@
    } else if d == 8 {
        "8"@
    } else {
        "9"@
    }
}

/// The decimal notation of `n`, without leading zeros.
pub open spec fn decimal(n: int) -> Seq<char>
    decreases n,
{
    if n < 10 {
        digit(n)
    } else {
        decimal(n / 10) + digit(n % 10)
    }
}

/// A digit is one character, and another one for another digit.
pub(crate) proof fn lemma_digit(d: int)
    requires
        0 <= d < 10,
    ensures
        digit(d).len() == 1,
        digit(d)[0] as int == '0' as int + d,
{
    reveal_strlit("0");
    reveal_strlit("1");
    reveal_strlit("2");
    reveal_strlit("3");
    reveal_strlit("4");
    reveal_strlit("5");
    reveal_strlit("6");
    reveal_strlit("7");
    reveal_strlit("8");
    reveal_strlit("9");
}

/// The notation of a number of several digits ends in its last digit.
proof fn lemma_decimal_ends(n: int)
    requires
        0 <= n,
    ensures
        decimal(n).len() >= 1,
        n >= 10 ==> decimal(n).len() >= 2,
        decimal(n).last() as int == '0' as int + n % 10,
        n >= 10 ==> decimal(n).drop_last() == decimal(n / 10),
    decreases n,
{
    lemma_digit(n % 10);
    if n >= 10 {
        lemma_decimal_ends(n / 10);
        assert(decimal(n).drop_last() =~= decimal(n / 10));
    }
}

/// Different numbers have different notations.
pub proof fn decimal_tells_numbers_apart(a: int, b: int)
    requires
        0 <= a,
        0 <= b,
        decimal(a) == decimal(b),
    ensures
        a == b,
    decreases a,
{
    lemma_decimal_ends(a);
    lemma_decimal_ends(b);
    if a >= 10 && b >= 10 {
        decimal_tells_numbers_apart(a / 10, b / 10);
    } else if a < 10 {
        lemma_digit(a);
    } else {
        lemma_digit(b);
    }
}

/// The text goes on from where another one ends.
pub open spec fn goes_on(head: Seq<char>, whole: Seq<char>) -> bool {
    head.len() <= whole.len() && whole.take(head.len() as int) == head
}

/// The text says this somewhere.
pub open spec fn says(whole: Seq<char>, piece: Seq<char>) -> bool {
    exists|head: Seq<char>| #[trigger] goes_on(head + piece, whole)
}

pub(crate) proof fn lemma_goes_on(head: Seq<char>, more: Seq<char>)
    ensures
        goes_on(head, head + more),
{
    assert((head + more).take(head.len() as int) =~= head);
}

pub(crate) proof fn lemma_goes_on_further(a: Seq<char>, b: Seq<char>, c: Seq<char>)
    requires
        goes_on(a, b),
        goes_on(b, c),
    ensures
        goes_on(a, c),
{
    assert(c.take(a.len() as int) =~= b.take(a.len() as int));
}

/// What a text says, it still says when it goes on.
pub(crate) proof fn lemma_says_still(head: Seq<char>, whole: Seq<char>, piece: Seq<char>)
    requires
        goes_on(head, whole),
        says(head, piece),
    ensures
        says(whole, piece),
{
    let before = choose|before: Seq<char>| #[trigger] goes_on(before + piece, head);
    lemma_goes_on_further(before + piece, head, whole);
}

/// A text says what stands behind any beginning of it.
pub(crate) proof fn lemma_says(before: Seq<char>, piece: Seq<char>, whole: Seq<char>)
    requires
        goes_on(before + piece, whole),
    ensures
        says(whole, piece),
{
}

/// The text with a comma behind it, unless what follows is the first of a list.
pub open spec fn separated(out: Seq<char>, first: bool) -> Seq<char> {
    if first {
        out
    } else {
        out + ", "@
    }
}

pub(crate) fn push_separator(out: &mut String, first: bool)
    ensures
        final(out)@ == separated(old(out)@, first),
{
    if !first {
        out.append(", ");
    }
}

fn digit_text(d: u128) -> (text: &'static str)
    requires
        d < 10,
    ensures
        text@ == digit(d as int),
{
    if d == 0 {
        "0"
    } else if d == 1 {
        "1"
    } else if d == 2 {
        "2"
    } else if d == 3 {
        "3"
    } else if d == 4 {
        "4"
    } else if d == 5 {
        "5"
    } else if d == 6 {
        "6"
    } else if d == 7 {
        "7"
    } else if d == 8 {
        "8"
    } else {
        "9"
    }
}

/// Appends the decimal notation of `n`, which may exceed 64 bits.
pub fn push_wide_decimal(out: &mut String, n: u128)
    ensures
        final(out)@ == old(out)@ + decimal(n as int),
    decreases n,
{
    let ghost before = out@;
    if n >= 10 {
        push_wide_decimal(out, n / 10);
        out.append(digit_text(n % 10));
        proof {
            assert(before + decimal((n / 10) as int) + digit((n % 10) as int) =~= before + (decimal(
                (n / 10) as int,
            ) + digit((n % 10) as int)));
        }
    } else {
        out.append(digit_text(n));
    }
}

/// Appends the decimal notation of `n`.
pub fn push_decimal(out: &mut String, n: u64)
    ensures
        final(out)@ == old(out)@ + decimal(n as int),
{
    push_wide_decimal(out, n as u128);
}

/// The text that `Debug` formatting gives for a string: quoted, with escapes.
pub uninterp spec fn debug_text(text: Seq<char>) -> Seq<char>;

/// Formats `text` with std's `Debug` implementation of `str`. The result is
/// a function of the characters alone, here called [`debug_text`]; the escape
/// rules themselves are not restated.
#[verifier::external_body]
pub(crate) fn quoted(text: &str) -> (out: String)
    ensures
        out@ == debug_text(text@),
{
    format!("{:?}", text)
}

/// The source text of the literal token of a string.
pub uninterp spec fn literal_text(text: Seq<char>) -> Seq<char>;

/// The text of the token that `proc_macro2::Literal::string` makes. This crate
/// takes `proc_macro2` without its `proc-macro` feature, so the text is a
/// function of the characters alone wherever it runs, here called
/// [`literal_text`]; the escape rules themselves are not restated.
#[verifier::external_body]
pub(crate) fn literal(text: &str) -> (out: String)
    ensures
        out@ == literal_text(text@),
{
    proc_macro2::Literal::string(text).to_string()
}

} // verus!
