//! Text helpers shared by the adapter and the renderer, together with the
//! facts about `std` strings that the rest of the crate relies on.

use vstd::prelude::*;
use vstd::string::*;

verus! {

/// Trusted: `String::push` appends the character to the end of the string.
pub assume_specification[ String::push ](s: &mut String, c: char)
    ensures
        final(s)@ == old(s)@.push(c),
;

/// Trusted: `String::pop` removes the last character and returns it, or
/// returns `None` and leaves the string alone when it is empty.
pub assume_specification[ String::pop ](s: &mut String) -> (r: Option<char>)
    ensures
        old(s)@.len() == 0 ==> r.is_none() && final(s)@ == old(s)@,
        old(s)@.len() > 0 ==> r == Some(old(s)@.last()) && final(s)@ == old(s)@.drop_last(),
;

/// Trusted: `==` on string slices holds exactly when both hold the same
/// characters in the same order.
#[verifier::external_body]
pub(crate) fn text_eq(a: &str, b: &str) -> (r: bool)
    ensures
        r == (a@ == b@),
{
    a == b
}

/// Whether the character is whitespace, as `char::is_whitespace` tells:
/// whether it has the Unicode property `White_Space`. These are the control
/// characters from tab to carriage return, the space, the next-line
/// character, the no-break space, and the spaces and separators above them.
pub open spec fn is_whitespace(c: char) -> bool {
    let n = c as u32;
    ||| 0x0009 <= n <= 0x000D
    ||| n == 0x0020
    ||| n == 0x0085
    ||| n == 0x00A0
    ||| n == 0x1680
    ||| 0x2000 <= n <= 0x200A
    ||| n == 0x2028
    ||| n == 0x2029
    ||| n == 0x202F
    ||| n == 0x205F
    ||| n == 0x3000
}

/// Whether the text is whitespace throughout.
pub open spec fn all_whitespace(s: Seq<char>) -> bool {
    forall|i: int| 0 <= i < s.len() ==> is_whitespace(#[trigger] s[i])
}

/// Whether neither end of the text is whitespace. The empty text has no
/// ends.
pub open spec fn solid_ends(s: Seq<char>) -> bool {
    s.len() > 0 ==> !is_whitespace(s.first()) && !is_whitespace(s.last())
}

/// The text without its leading whitespace.
pub open spec fn trimmed_start(s: Seq<char>) -> Seq<char>
    decreases s.len(),
{
    if s.len() > 0 && is_whitespace(s.first()) {
        trimmed_start(s.drop_first())
    } else {
        s
    }
}

/// The text without its trailing whitespace.
pub open spec fn trimmed_end(s: Seq<char>) -> Seq<char>
    decreases s.len(),
{
    if s.len() > 0 && is_whitespace(s.last()) {
        trimmed_end(s.drop_last())
    } else {
        s
    }
}

/// The text without leading and trailing whitespace.
pub open spec fn trimmed(s: Seq<char>) -> Seq<char> {
    trimmed_end(trimmed_start(s))
}

/// Trusted: `str::trim` returns the slice that is left when leading and
/// trailing whitespace, in the sense of `char::is_whitespace`, is removed.
#[verifier::external_body]
pub(crate) fn trim(s: &str) -> (r: &str)
    ensures
        r@ == trimmed(s@),
{
    s.trim()
}

/// Leading whitespace is removed up to the first character that is none.
pub proof fn lemma_trimmed_start(lead: Seq<char>, rest: Seq<char>)
    requires
        all_whitespace(lead),
        rest.len() > 0 ==> !is_whitespace(rest.first()),
    ensures
        trimmed_start(lead + rest) == rest,
    decreases lead.len(),
{
    if lead.len() == 0 {
        assert(lead + rest =~= rest);
    } else {
        assert((lead + rest).first() == lead[0]);
        assert((lead + rest).drop_first() =~= lead.drop_first() + rest);
        assert forall|i: int| 0 <= i < lead.drop_first().len() implies is_whitespace(
            #[trigger] lead.drop_first()[i],
        ) by {
            assert(lead.drop_first()[i] == lead[i + 1]);
        }
        lemma_trimmed_start(lead.drop_first(), rest);
    }
}

/// Trailing whitespace is removed back to the last character that is none.
pub proof fn lemma_trimmed_end(rest: Seq<char>, trail: Seq<char>)
    requires
        all_whitespace(trail),
        rest.len() > 0 ==> !is_whitespace(rest.last()),
    ensures
        trimmed_end(rest + trail) == rest,
    decreases trail.len(),
{
    if trail.len() == 0 {
        assert(rest + trail =~= rest);
    } else {
        assert((rest + trail).last() == trail.last());
        assert((rest + trail).drop_last() =~= rest + trail.drop_last());
        assert forall|i: int| 0 <= i < trail.drop_last().len() implies is_whitespace(
            #[trigger] trail.drop_last()[i],
        ) by {
            assert(trail.drop_last()[i] == trail[i]);
        }
        lemma_trimmed_end(rest, trail.drop_last());
    }
}

/// What trimming leaves of a text: the text between its leading and its
/// trailing whitespace, whole and unchanged, and nothing of a text that is
/// whitespace throughout.
pub proof fn lemma_trimmed(lead: Seq<char>, core: Seq<char>, trail: Seq<char>)
    requires
        all_whitespace(lead),
        all_whitespace(trail),
        solid_ends(core),
    ensures
        trimmed(lead + core + trail) == core,
{
    if core.len() == 0 {
        assert(lead + core + trail =~= (lead + trail) + Seq::<char>::empty());
        assert(all_whitespace(lead + trail)) by {
            assert forall|i: int| 0 <= i < (lead + trail).len() implies is_whitespace(
                #[trigger] (lead + trail)[i],
            ) by {
                if i < lead.len() {
                    assert((lead + trail)[i] == lead[i]);
                } else {
                    assert((lead + trail)[i] == trail[i - lead.len()]);
                }
            }
        }
        lemma_trimmed_start(lead + trail, Seq::<char>::empty());
        assert(core =~= Seq::<char>::empty());
    } else {
        assert(lead + core + trail =~= lead + (core + trail));
        assert((core + trail).first() == core.first());
        lemma_trimmed_start(lead, core + trail);
        lemma_trimmed_end(core, trail);
    }
}

/// A line end after a message is trimmed away, and so is one before it: a
/// message that the controller prints on a line of its own is reported as
/// the message alone.
pub proof fn lemma_line_ends_are_trimmed(message: Seq<char>)
    requires
        solid_ends(message),
    ensures
        trimmed(message.push('\n')) == message,
        trimmed(message + seq!['\r', '\n']) == message,
        trimmed(seq!['\n'] + message + seq!['\n']) == message,
        trimmed(seq![' '] + message + seq![' ']) == message,
{
    let none = Seq::<char>::empty();
    assert(message.push('\n') =~= none + message + seq!['\n']);
    lemma_trimmed(none, message, seq!['\n']);
    assert(message + seq!['\r', '\n'] =~= none + message + seq!['\r', '\n']);
    lemma_trimmed(none, message, seq!['\r', '\n']);
    lemma_trimmed(seq!['\n'], message, seq!['\n']);
    lemma_trimmed(seq![' '], message, seq![' ']);
}

/// The character that writes the decimal digit `d`.
pub open spec fn digit(d: nat) -> char {
    if d == 0 {
        '0'
    } else if d == 1 {
        '1'
    } else if d == 2 {
        '2'
    } else if d == 3 {
        '3'
    } else if d == 4 {
        '4'
    } else if d == 5 {
        '5'
    } else if d == 6 {
        '6'
    } else if d == 7 {
        '7'
    } else if d == 8 {
        '8'
    } else {
        '9'
    }
}

/// The decimal numeral of `n`, without leading zeros.
pub open spec fn decimal(n: nat) -> Seq<char>
    decreases n,
{
    if n < 10 {
        seq![digit(n)]
    } else {
        decimal(n / 10).push(digit(n % 10))
    }
}

/// The digit that the character writes; 0 for a character that is no digit.
pub open spec fn digit_value(c: char) -> nat {
    if c == '1' {
        1
    } else if c == '2' {
        2
    } else if c == '3' {
        3
    } else if c == '4' {
        4
    } else if c == '5' {
        5
    } else if c == '6' {
        6
    } else if c == '7' {
        7
    } else if c == '8' {
        8
    } else if c == '9' {
        9
    } else {
        0
    }
}

/// The number that a decimal numeral writes.
pub open spec fn numeral_value(digits: Seq<char>) -> nat
    decreases digits.len(),
{
    if digits.len() == 0 {
        0
    } else {
        10 * numeral_value(digits.drop_last()) + digit_value(digits.last())
    }
}

/// The decimal numeral of a number writes that number, and it has no
/// leading zero unless the number is 0.
pub proof fn lemma_decimal_writes(n: nat)
    ensures
        numeral_value(decimal(n)) == n,
        decimal(n).len() >= 1,
        n > 0 ==> decimal(n)[0] != '0',
    decreases n,
{
    if n < 10 {
        assert(decimal(n).drop_last() =~= Seq::<char>::empty());
        assert(numeral_value(Seq::<char>::empty()) == 0);
    } else {
        lemma_decimal_writes(n / 10);
        assert(decimal(n).drop_last() =~= decimal(n / 10));
    }
}

/// The decimal numeral of `i`, with a minus sign in front when it is negative.
pub open spec fn signed_decimal(i: int) -> Seq<char> {
    if i < 0 {
        seq!['-'] + decimal((-i) as nat)
    } else {
        decimal(i as nat)
    }
}

/// The decimal numeral of `n`, at least two digits wide.
pub open spec fn two_digits(n: nat) -> Seq<char> {
    if n < 10 {
        seq!['0'] + decimal(n)
    } else {
        decimal(n)
    }
}

/// The parts in order, with the separator between each two neighbours.
pub open spec fn joined(parts: Seq<Seq<char>>, sep: Seq<char>) -> Seq<char>
    decreases parts.len(),
{
    if parts.len() == 0 {
        Seq::empty()
    } else if parts.len() == 1 {
        parts[0]
    } else {
        joined(parts.drop_last(), sep) + sep + parts.last()
    }
}

/// The text, followed by as many spaces as it takes to reach the width.
pub open spec fn padded(s: Seq<char>, width: nat) -> Seq<char> {
    if s.len() >= width {
        s
    } else {
        s + Seq::new((width - s.len()) as nat, |i: int| ' ')
    }
}

fn digit_char(d: u8) -> (c: char)
    requires
        d < 10,
    ensures
        c == digit(d as nat),
{
    if d == 0 {
        '0'
    } else if d == 1 {
        '1'
    } else if d == 2 {
        '2'
    } else if d == 3 {
        '3'
    } else if d == 4 {
        '4'
    } else if d == 5 {
        '5'
    } else if d == 6 {
        '6'
    } else if d == 7 {
        '7'
    } else if d == 8 {
        '8'
    } else {
        '9'
    }
}

/// Appends the decimal numeral of `n` to the text.
pub fn push_decimal(out: &mut String, n: u128)
    ensures
        final(out)@ == old(out)@ + decimal(n as nat),
    decreases n,
{
    if n >= 10 {
        push_decimal(out, n / 10);
    }
    let d: u8 = (n % 10) as u8;
    out.push(digit_char(d));
}

/// The decimal numeral of `n`.
pub fn decimal_string(n: u128) -> (s: String)
    ensures
        s@ == decimal(n as nat),
{
    let mut s = String::new();
    push_decimal(&mut s, n);
    s
}

/// The decimal numeral of `i`, signed.
pub fn signed_decimal_string(i: i64) -> (s: String)
    ensures
        s@ == signed_decimal(i as int),
{
    let mut s = String::new();
    if i < 0 {
        s.push('-');
        let m: u128 = (-(i as i128)) as u128;
        push_decimal(&mut s, m);
    } else {
        push_decimal(&mut s, i as u128);
    }
    s
}

/// The decimal numeral of `n`, padded with a zero to two digits.
pub fn two_digit_string(n: u64) -> (s: String)
    ensures
        s@ == two_digits(n as nat),
{
    let mut s = String::new();
    if n < 10 {
        s.push('0');
    }
    push_decimal(&mut s, n as u128);
    s
}

/// Joins the parts with the separator between them.
pub fn join(parts: &Vec<String>, sep: &str) -> (s: String)
    ensures
        s@ == joined(parts.deep_view(), sep@),
{
    let mut out = String::new();
    let mut i: usize = 0;
    while i < parts.len()
        invariant
            i <= parts.len(),
            out@ == joined(parts.deep_view().take(i as int), sep@),
        decreases parts.len() - i,
    {
        let ghost before = parts.deep_view().take(i as int);
        let ghost after = parts.deep_view().take(i + 1);
        assert(after.drop_last() =~= before);
        assert(after.last() == parts[i as int]@);
        if i > 0 {
            out.append(sep);
        }
        out.append(parts[i].as_str());
        assert(out@ =~= joined(after, sep@));
        i = i + 1;
    }
    assert(parts.deep_view().take(parts.len() as int) =~= parts.deep_view());
    out
}

/// Pads the text with spaces on the right up to the width, counted in
/// characters; a longer text is returned whole.
pub fn pad_right(s: &str, width: usize) -> (r: String)
    ensures
        r@ == padded(s@, width as nat),
{
    let mut out = s.to_string();
    let mut n: usize = s.unicode_len();
    while n < width
        invariant
            s@.len() <= n,
            n <= width || n == s@.len(),
            out@ == s@ + Seq::new((n - s@.len()) as nat, |i: int| ' '),
        decreases width - n,
    {
        out.push(' ');
        n = n + 1;
    }
    out
}

} // verus!
