//! Small operations on text.

use vstd::prelude::*;

verus! {

/// `String::push` appends one character.
pub assume_specification[ String::push ](s: &mut String, c: char)
    ensures
        final(s)@ == old(s)@.push(c),
;

/// Whether two texts are the same.
pub fn str_eq(a: &str, b: &str) -> (same: bool)
    ensures
        same == (a@ == b@),
{
    a.to_owned() == b.to_owned()
}

/// The digit for a value below ten.
pub open spec fn digit_char(d: nat) -> char {
    ('0' as nat + d) as char
}

/// A number in decimal, without leading zeros.
pub open spec fn decimal_text(n: nat) -> Seq<char>
    decreases n,
{
    if n < 10 {
        seq![digit_char(n)]
    } else {
        decimal_text(n / 10).push(digit_char(n % 10))
    }
}

/// Writes a number in decimal.
pub fn decimal(n: u64) -> (text: String)
    ensures
        text@ == decimal_text(n as nat),
    decreases n,
{
    let last: u64 = n % 10;
    let c: char = (48u8 + last as u8) as char;
    if n < 10 {
        let mut text = String::new();
        text.push(c);
        proof {
            assert(text@ =~= seq![digit_char(n as nat)]);
        }
        text
    } else {
        let mut text = decimal(n / 10);
        text.push(c);
        text
    }
}

/// A number in decimal, with a sign where it is negative.
pub open spec fn signed_text(n: int) -> Seq<char> {
    if n < 0 {
        "-"@ + decimal_text((-n) as nat)
    } else {
        decimal_text(n as nat)
    }
}

/// Writes a number in decimal, with a sign where it is negative.
pub fn signed_decimal(n: i32) -> (text: String)
    ensures
        text@ == signed_text(n as int),
{
    if n < 0 {
        let mut text = "-".to_owned();
        let magnitude: i64 = -(n as i64);
        text.append(decimal(magnitude as u64).as_str());
        text
    } else {
        decimal(n as u64)
    }
}

/// Whether a text starts with another.
pub open spec fn has_prefix(s: Seq<char>, prefix: Seq<char>) -> bool {
    prefix.len() <= s.len() && s.take(prefix.len() as int) == prefix
}

/// Whether a text starts with another.
pub fn starts_with(s: &str, prefix: &str) -> (r: bool)
    ensures
        r == has_prefix(s@, prefix@),
{
    let n: usize = prefix.unicode_len();
    if s.unicode_len() < n {
        return false;
    }
    let start = s.substring_char(0, n);
    proof {
        assert(s@.subrange(0, n as int) =~= s@.take(n as int));
    }
    str_eq(start, prefix)
}

/// What follows a text's start, where it starts with it.
pub fn strip_prefix(s: &str, prefix: &str) -> (rest: Option<String>)
    ensures
        match rest {
            Some(rest) => has_prefix(s@, prefix@) && rest@ == s@.skip(prefix@.len() as int),
            None => !has_prefix(s@, prefix@),
        },
{
    if starts_with(s, prefix) {
        let n: usize = prefix.unicode_len();
        let len: usize = s.unicode_len();
        let rest = s.substring_char(n, len);
        proof {
            assert(s@.subrange(n as int, len as int) =~= s@.skip(n as int));
        }
        Some(rest.to_owned())
    } else {
        None
    }
}

/// Whether a text is found in another, at a place.
pub open spec fn found_at(s: Seq<char>, part: Seq<char>, i: int) -> bool {
    0 <= i && i + part.len() <= s.len() && s.subrange(i, i + part.len()) == part
}

/// Whether a text is found in another.
pub open spec fn has_part(s: Seq<char>, part: Seq<char>) -> bool {
    exists|i: int| found_at(s, part, i)
}

/// Whether a text is found in another.
pub fn contains(s: &str, part: &str) -> (r: bool)
    ensures
        r == has_part(s@, part@),
{
    let len: usize = s.unicode_len();
    let n: usize = part.unicode_len();
    if len < n {
        return false;
    }
    let mut i: usize = 0;
    while i <= len - n
        invariant
            len == s@.len(),
            n == part@.len(),
            n <= len,
            i <= len - n + 1,
            forall|k: int| 0 <= k < i ==> !found_at(s@, part@, k),
        decreases len - n + 1 - i,
    {
        if str_eq(s.substring_char(i, i + n), part) {
            proof {
                assert(found_at(s@, part@, i as int));
            }
            return true;
        }
        if i == len - n {
            proof {
                assert forall|k: int| !found_at(s@, part@, k) by {
                    if found_at(s@, part@, k) {
                        assert(k <= len - n);
                    }
                }
            }
            return false;
        }
        i = i + 1;
    }
    false
}

/// A text is found in another exactly where the other is that text with something before and
/// something behind it, or nothing.
pub proof fn law_parts_stand_between(before: Seq<char>, part: Seq<char>, behind: Seq<char>)
    ensures
        has_part(before + part + behind, part),
        forall|s: Seq<char>| #[trigger]
            has_part(s, part) ==> exists|a: Seq<char>, b: Seq<char>| s == #[trigger] (a + part + b),
{
    let whole = before + part + behind;
    let at = before.len() as int;
    assert(whole.subrange(at, at + part.len()) =~= part);
    assert(found_at(whole, part, at));
    assert forall|s: Seq<char>| #[trigger] has_part(s, part) implies exists|
        a: Seq<char>,
        b: Seq<char>,
    | s == #[trigger] (a + part + b) by {
        let i = choose|i: int| found_at(s, part, i);
        let a = s.take(i);
        let b = s.skip(i + part.len());
        assert(s =~= a + s.subrange(i, i + part.len()) + b);
        assert(s == a + part + b);
    }
}

/// A text starts with another exactly where it is that text with something behind it, or nothing.
pub proof fn law_prefixes_come_first(prefix: Seq<char>, rest: Seq<char>, s: Seq<char>)
    ensures
        has_prefix(prefix + rest, prefix),
        (prefix + rest).skip(prefix.len() as int) == rest,
        has_prefix(s, prefix) ==> s == prefix + s.skip(prefix.len() as int),
{
    assert((prefix + rest).take(prefix.len() as int) =~= prefix);
    assert((prefix + rest).skip(prefix.len() as int) =~= rest);
    if has_prefix(s, prefix) {
        assert(s =~= s.take(prefix.len() as int) + s.skip(prefix.len() as int));
    }
}

/// The number that decimal digits stand for.
pub open spec fn number_of(text: Seq<char>) -> int
    decreases text.len(),
{
    if text.len() == 0 {
        0
    } else {
        10 * number_of(text.drop_last()) + (text.last() as int - '0' as int)
    }
}

/// A number in decimal is made of digits, does not start with a zero unless it is one, and is read
/// back as the number.
pub proof fn law_decimals_are_read_back(n: nat)
    ensures
        number_of(decimal_text(n)) == n,
        decimal_text(n).len() > 0,
        forall|i: int|
            0 <= i < decimal_text(n).len() ==> '0' <= #[trigger] decimal_text(n)[i] <= '9',
        n > 0 ==> decimal_text(n)[0] != '0',
        n == 0 ==> decimal_text(n) == seq!['0'],
    decreases n,
{
    let text = decimal_text(n);
    if n >= 10 {
        law_decimals_are_read_back(n / 10);
        assert(text.drop_last() =~= decimal_text(n / 10));
        assert(text[0] == decimal_text(n / 10)[0]);
    } else {
        assert(text.drop_last() =~= Seq::<char>::empty());
        assert(number_of(text.drop_last()) == 0);
    }
}

/// Different numbers have different texts, with a sign or without.
pub proof fn law_numbers_are_told_apart(a: int, b: int)
    requires
        signed_text(a) == signed_text(b),
    ensures
        a == b,
{
    reveal_strlit("-");
    let x = if a < 0 { -a } else { a };
    let y = if b < 0 { -b } else { b };
    law_decimals_are_read_back(x as nat);
    law_decimals_are_read_back(y as nat);
    if a < 0 {
        assert(signed_text(a)[0] == '-');
        assert(signed_text(a).skip(1) =~= decimal_text(x as nat));
    } else {
        assert(signed_text(a)[0] == decimal_text(x as nat)[0]);
    }
    if b < 0 {
        assert(signed_text(b)[0] == '-');
        assert(signed_text(b).skip(1) =~= decimal_text(y as nat));
    } else {
        assert(signed_text(b)[0] == decimal_text(y as nat)[0]);
    }
}

} // verus!
