//! Building and cutting text: what messages are made of and how endpoints are read.

use vstd::prelude::*;
use vstd::string::*;

verus! {

/// One decimal digit.
pub open spec fn digit(d: nat) -> Seq<char> {
    if d == 0 {
        "0"@
    } else if d == 1 {
        "1"@
    } else if d == 2 {
        "2"@
    } else if d == 3 {
        "3"@
    } else if d == 4 {
        "4"@
    } else if d == 5 {
        "5"@
    } else if d == 6 {
        "6"@
    } else if d == 7 {
        "7"@
    } else if d == 8 {
        "8"@
    } else {
        "9"@
    }
}

/// A number in decimal, without leading zeros.
pub open spec fn decimal(n: nat) -> Seq<char>
    decreases n,
{
    if n < 10 {
        digit(n)
    } else {
        decimal(n / 10) + digit(n % 10)
    }
}

fn digit_text(d: u64) -> (text: &'static str)
    requires
        d < 10,
    ensures
        text@ == digit(d as nat),
{
    match d {
        0 => "0",
        1 => "1",
        2 => "2",
        3 => "3",
        4 => "4",
        5 => "5",
        6 => "6",
        7 => "7",
        8 => "8",
        _ => "9",
    }
}

/// Appends a number of up to 128 bits in decimal.
pub fn push_wide_decimal(text: &mut String, n: u128)
    ensures
        final(text)@ == old(text)@ + decimal(n as nat),
    decreases n,
{
    if n < 10 {
        text.append(digit_text(n as u64));
    } else {
        let ghost start = text@;
        push_wide_decimal(text, n / 10);
        text.append(digit_text((n % 10) as u64));
        proof {
            assert(start + decimal((n / 10) as nat) + digit((n % 10) as nat) =~= start + (decimal((n / 10) as nat)
                + digit((n % 10) as nat)));
        }
    }
}

/// Appends a number in decimal.
pub fn push_decimal(text: &mut String, n: u64)
    ensures
        final(text)@ == old(text)@ + decimal(n as nat),
{
    push_wide_decimal(text, n as u128);
}

/// The text of a literal.
pub fn literal(text: &str) -> (copy: String)
    ensures
        copy@ == text@,
{
    String::from_str(text)
}

/// Whether both texts are the same.
pub fn same(left: &str, right: &str) -> (same: bool)
    ensures
        same == (left@ == right@),
{
    String::from_str(left) == String::from_str(right)
}

/// `left` followed by `right`.
pub fn join(left: &str, right: &str) -> (both: String)
    ensures
        both@ == left@ + right@,
{
    let mut both = String::from_str(left);
    both.append(right);
    both
}

/// `left`, then the number in decimal, then `right`.
pub fn with_number(left: &str, n: u64, right: &str) -> (all: String)
    ensures
        all@ == left@ + decimal(n as nat) + right@,
{
    let mut all = String::from_str(left);
    push_decimal(&mut all, n);
    all.append(right);
    all
}

/// One lower-case hexadecimal digit.
pub open spec fn hex_digit(d: nat) -> Seq<char> {
    if d < 10 {
        digit(d)
    } else if d == 10 {
        "a"@
    } else if d == 11 {
        "b"@
    } else if d == 12 {
        "c"@
    } else if d == 13 {
        "d"@
    } else if d == 14 {
        "e"@
    } else {
        "f"@
    }
}

/// The last `width` hexadecimal digits of a number.
pub open spec fn hex(n: nat, width: nat) -> Seq<char>
    decreases width,
{
    if width == 0 {
        Seq::empty()
    } else {
        hex(n / 16, (width - 1) as nat) + hex_digit(n % 16)
    }
}

fn hex_digit_text(d: u128) -> (text: &'static str)
    requires
        d < 16,
    ensures
        text@ == hex_digit(d as nat),
{
    match d {
        10 => "a",
        11 => "b",
        12 => "c",
        13 => "d",
        14 => "e",
        15 => "f",
        _ => digit_text(d as u64),
    }
}

/// Appends the last `width` hexadecimal digits of a number.
fn push_hex(text: &mut String, n: u128, width: u8)
    ensures
        final(text)@ == old(text)@ + hex(n as nat, width as nat),
    decreases width,
{
    let ghost start = text@;
    if width == 0 {
        assert(start + hex(n as nat, 0) =~= start);
    } else {
        push_hex(text, n / 16, width - 1);
        text.append(hex_digit_text(n % 16));
        proof {
            let head = hex((n / 16) as nat, (width - 1) as nat);
            let last = hex_digit((n % 16) as nat);
            assert(start + head + last =~= start + (head + last));
        }
    }
}

/// There are as many digits as asked for.
proof fn lemma_hex_width(n: nat, width: nat)
    ensures
        hex(n, width).len() == width,
    decreases width,
{
    if width > 0 {
        lemma_hex_width(n / 16, (width - 1) as nat);
        reveal_strlit("0");
        reveal_strlit("1");
        reveal_strlit("2");
        reveal_strlit("3");
        reveal_strlit("4");
        reveal_strlit("5");
        reveal_strlit("6");
        reveal_strlit("7");
        reveal_strlit("8");
        reveal_strlit("9");
        reveal_strlit("a");
        reveal_strlit("b");
        reveal_strlit("c");
        reveal_strlit("d");
        reveal_strlit("e");
        reveal_strlit("f");
    }
}

/// A 128-bit identifier in its hyphenated form: its 32 hexadecimal digits, cut into 8, 4, 4, 4 and
/// 12.
pub open spec fn hyphenated(n: nat) -> Seq<char> {
    let digits = hex(n, 32);
    digits.subrange(0, 8) + "-"@ + digits.subrange(8, 12) + "-"@ + digits.subrange(12, 16) + "-"@ + digits.subrange(
        16,
        20,
    ) + "-"@ + digits.subrange(20, 32)
}

/// A 128-bit identifier in its hyphenated form.
pub fn hyphenated_text(n: u128) -> (text: String)
    ensures
        text@ == hyphenated(n as nat),
{
    let mut written = String::new();
    push_hex(&mut written, n, 32);
    let digits = written.as_str();
    proof {
        assert(digits@ =~= hex(n as nat, 32));
        lemma_hex_width(n as nat, 32);
    }
    let mut text = String::from_str(digits.substring_char(0, 8));
    text.append("-");
    text.append(digits.substring_char(8, 12));
    text.append("-");
    text.append(digits.substring_char(12, 16));
    text.append("-");
    text.append(digits.substring_char(16, 20));
    text.append("-");
    text.append(digits.substring_char(20, 32));
    text
}

/// An optional text as it reads.
pub open spec fn shown(text: Option<String>) -> Option<Seq<char>> {
    match text {
        Some(t) => Some(t@),
        None => None,
    }
}

/// The number that decimal digits write, where they are all digits.
pub open spec fn digits_value(s: Seq<char>) -> Option<nat>
    decreases s.len(),
{
    if s.len() == 0 {
        Some(0)
    } else {
        match digits_value(s.drop_last()) {
            Some(v) if '0' <= s.last() <= '9' => Some((v * 10 + (s.last() as nat - '0' as nat)) as nat),
            _ => None,
        }
    }
}

/// The number below 2^32 that a text writes: decimal digits, at least one, after at most one `+`.
pub open spec fn number_in(s: Seq<char>) -> Option<u32> {
    let body = if s.len() > 0 && s[0] == '+' {
        s.skip(1)
    } else {
        s
    };
    match digits_value(body) {
        Some(v) if body.len() > 0 && v <= u32::MAX => Some(v as u32),
        _ => None,
    }
}

/// What holds of the start of a text of digits.
proof fn lemma_digits_prefix(s: Seq<char>, i: int)
    requires
        0 <= i <= s.len(),
    ensures
        digits_value(s) is Some ==> digits_value(s.take(i)) is Some,
        digits_value(s) is Some ==> digits_value(s.take(i))->0 <= digits_value(s)->0,
    decreases s.len() - i,
{
    if i < s.len() {
        lemma_digits_prefix(s, i + 1);
        assert(s.take(i + 1).drop_last() =~= s.take(i));
    } else {
        assert(s.take(i) =~= s);
    }
}

/// Reads a number below 2^32.
pub fn parse_number(s: &str) -> (number: Option<u32>)
    ensures
        number == number_in(s@),
{
    let n = s.unicode_len();
    let start: usize = if n > 0 && s.get_char(0) == '+' {
        1
    } else {
        0
    };
    let ghost body = if s@.len() > 0 && s@[0] == '+' {
        s@.skip(1)
    } else {
        s@
    };
    if start == n {
        return None;
    }
    let mut value: u64 = 0;
    let mut i: usize = start;
    assert(body.take(0) =~= Seq::<char>::empty());
    while i < n
        invariant
            start <= i <= n,
            n == s@.len(),
            n > start,
            start <= 1,
            body.len() == n - start,
            forall|k: int| 0 <= k < body.len() ==> body[k] == s@[k + start],
            body == (if s@.len() > 0 && s@[0] == '+' {
                s@.skip(1)
            } else {
                s@
            }),
            digits_value(body.take(i - start)) == Some(value as nat),
            value <= u32::MAX,
        decreases n - i,
    {
        let c = s.get_char(i);
        let ghost longer = body.take(i + 1 - start);
        proof {
            assert(longer.drop_last() =~= body.take(i - start));
            assert(longer.last() == c);
            lemma_digits_prefix(body, i + 1 - start);
        }
        if !('0' <= c && c <= '9') {
            return None;
        }
        value = value * 10 + (c as u64 - '0' as u64);
        if value > u32::MAX as u64 {
            return None;
        }
        i += 1;
    }
    proof {
        assert(body.take(n - start) =~= body);
    }
    Some(value as u32)
}

/// Whether the text starts with the other.
pub fn starts_with(s: &str, start: &str) -> (starts: bool)
    ensures
        starts == start@.is_prefix_of(s@),
{
    let n = start.unicode_len();
    if s.unicode_len() < n {
        return false;
    }
    let head = s.substring_char(0, n);
    assert(head@ =~= s@.take(n as int));
    same(head, start)
}

/// The text without its first characters.
pub fn without_first<'a>(s: &'a str, count: usize) -> (rest: &'a str)
    requires
        count <= s@.len(),
    ensures
        rest@ == s@.skip(count as int),
{
    let n = s.unicode_len();
    let rest = s.substring_char(count, n);
    assert(rest@ =~= s@.skip(count as int));
    rest
}

proof fn lemma_digit(d: nat)
    requires
        d < 10,
    ensures
        digit(d).len() == 1,
        '0' <= digit(d)[0] <= '9',
        digit(d)[0] as nat - '0' as nat == d,
{
    reveal_strlit("0");
    reveal_strlit("1");
    reveal_strlit("2");
    reveal_strlit("3");
    reveal_strlit("4");
    reveal_strlit("5");
    reveal_strlit("6");
    reveal_strlit("7");
    reveal_strlit("8");
    reveal_strlit("9");
}

proof fn lemma_all_digits(s: Seq<char>)
    ensures
        digits_value(s) is Some ==> forall|i: int| 0 <= i < s.len() ==> '0' <= #[trigger] s[i] <= '9',
    decreases s.len(),
{
    if s.len() > 0 {
        let rest = s.drop_last();
        lemma_all_digits(rest);
        if digits_value(s) is Some {
            assert forall|i: int| 0 <= i < s.len() implies '0' <= #[trigger] s[i] <= '9' by {
                if i < rest.len() {
                    assert(rest[i] == s[i]);
                }
            }
        }
    }
}

/// A number that is written in decimal and read again is the same.
pub proof fn law_decimals_come_back(n: nat)
    ensures
        decimal(n).len() > 0,
        digits_value(decimal(n)) == Some(n),
        n <= u32::MAX ==> number_in(decimal(n)) == Some(n as u32),
        forall|i: int| 0 <= i < decimal(n).len() ==> '0' <= #[trigger] decimal(n)[i] <= '9',
    decreases n,
{
    let written = decimal(n);
    if n < 10 {
        lemma_digit(n);
        assert(written.drop_last() =~= Seq::<char>::empty());
        assert(digits_value(Seq::<char>::empty()) == Some(0nat));
    } else {
        law_decimals_come_back(n / 10);
        lemma_digit(n % 10);
        assert(written.drop_last() =~= decimal(n / 10));
        assert(written.last() == digit(n % 10)[0]);
    }
    lemma_all_digits(written);
    assert('0' <= written[0] <= '9');
}

/// Numbers are told apart by their decimals.
pub proof fn law_decimals_tell_numbers_apart(n: nat, m: nat)
    ensures
        decimal(n) == decimal(m) ==> n == m,
{
    law_decimals_come_back(n);
    law_decimals_come_back(m);
}

spec fn sixteen_to(width: nat) -> nat
    decreases width,
{
    if width == 0 {
        1
    } else {
        16 * sixteen_to((width - 1) as nat)
    }
}

proof fn lemma_hex_digits_differ(d: nat, e: nat)
    requires
        d < 16,
        e < 16,
    ensures
        hex_digit(d).len() == 1,
        hex_digit(d) == hex_digit(e) ==> d == e,
{
    reveal_strlit("0");
    reveal_strlit("1");
    reveal_strlit("2");
    reveal_strlit("3");
    reveal_strlit("4");
    reveal_strlit("5");
    reveal_strlit("6");
    reveal_strlit("7");
    reveal_strlit("8");
    reveal_strlit("9");
    reveal_strlit("a");
    reveal_strlit("b");
    reveal_strlit("c");
    reveal_strlit("d");
    reveal_strlit("e");
    reveal_strlit("f");
    let one = hex_digit(d);
    let other = hex_digit(e);
    if one == other {
        assert(one[0] == other[0]);
    }
}

proof fn lemma_hex_differs(n: nat, m: nat, width: nat)
    requires
        n < sixteen_to(width),
        m < sixteen_to(width),
        hex(n, width) == hex(m, width),
    ensures
        n == m,
    decreases width,
{
    if width > 0 {
        let less = (width - 1) as nat;
        lemma_hex_digits_differ(n % 16, m % 16);
        lemma_hex_digits_differ(m % 16, n % 16);
        let one = hex(n, width);
        let other = hex(m, width);
        lemma_hex_width(n / 16, less);
        lemma_hex_width(m / 16, less);
        assert(one.take(less as int) =~= hex(n / 16, less));
        assert(other.take(less as int) =~= hex(m / 16, less));
        assert(one.skip(less as int) =~= hex_digit(n % 16));
        assert(other.skip(less as int) =~= hex_digit(m % 16));
        lemma_hex_differs(n / 16, m / 16, less);
    }
}

/// Identifiers are told apart by their hyphenated forms, which have 36 characters.
pub proof fn law_hyphenated_forms_tell_identifiers_apart(a: u128, b: u128)
    ensures
        hyphenated(a as nat).len() == 36,
        hyphenated(a as nat) == hyphenated(b as nat) ==> a == b,
{
    reveal_strlit("-");
    lemma_hex_width(a as nat, 32);
    lemma_hex_width(b as nat, 32);
    let one = hex(a as nat, 32);
    let other = hex(b as nat, 32);
    let shown = hyphenated(a as nat);
    if shown == hyphenated(b as nat) {
        let told = hyphenated(b as nat);
        assert(shown.subrange(0, 8) =~= one.subrange(0, 8) && told.subrange(0, 8) =~= other.subrange(0, 8));
        assert(shown.subrange(9, 13) =~= one.subrange(8, 12) && told.subrange(9, 13) =~= other.subrange(8, 12));
        assert(shown.subrange(14, 18) =~= one.subrange(12, 16) && told.subrange(14, 18) =~= other.subrange(12, 16));
        assert(shown.subrange(19, 23) =~= one.subrange(16, 20) && told.subrange(19, 23) =~= other.subrange(16, 20));
        assert(shown.subrange(24, 36) =~= one.subrange(20, 32) && told.subrange(24, 36) =~= other.subrange(20, 32));
        assert(one =~= one.subrange(0, 8) + one.subrange(8, 12) + one.subrange(12, 16) + one.subrange(16, 20)
            + one.subrange(20, 32));
        assert(other =~= other.subrange(0, 8) + other.subrange(8, 12) + other.subrange(12, 16) + other.subrange(
            16,
            20,
        ) + other.subrange(20, 32));
        reveal_with_fuel(sixteen_to, 33);
        assert(sixteen_to(32) == 0x1_0000_0000_0000_0000_0000_0000_0000_0000);
        lemma_hex_differs(a as nat, b as nat, 32);
    }
}

} // verus!
