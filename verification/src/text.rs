//! Text: decimal and hexadecimal notation as mathematical functions, and the
//! string operations that the rest of the library is built from.

use vstd::prelude::*;
use vstd::string::StringExecFns;

verus! {

/// The decimal digit `d`, for `d` below ten.
pub open spec fn digit_char(d: nat) -> char {
    (48 + d) as char
}

/// `n` in decimal notation, without leading zeros.
pub open spec fn decimal(n: nat) -> Seq<char>
    decreases n,
{
    if n < 10 {
        seq![digit_char(n)]
    } else {
        decimal(n / 10).push(digit_char(n % 10))
    }
}

/// `n` in decimal notation, with zeros before it up to `width` characters.
pub open spec fn padded(n: nat, width: nat) -> Seq<char> {
    let digits = decimal(n);
    if digits.len() < width {
        Seq::new((width - digits.len()) as nat, |i: int| '0') + digits
    } else {
        digits
    }
}

/// What the character `c` counts in a positional notation with up to 36
/// digits, upper and lower case alike.
pub open spec fn digit_value(c: char) -> Option<nat> {
    if '0' <= c && c <= '9' {
        Some((c as nat - 48) as nat)
    } else if 'a' <= c && c <= 'z' {
        Some((c as nat - 87) as nat)
    } else if 'A' <= c && c <= 'Z' {
        Some((c as nat - 55) as nat)
    } else {
        None
    }
}

/// The number that `s` denotes in base `radix`; `None` where a character is
/// not a digit of that base. An empty text denotes zero. Where `lenient`
/// holds, underscores are passed over.
pub open spec fn radix_value(s: Seq<char>, radix: nat, lenient: bool) -> Option<nat>
    decreases s.len(),
{
    if s.len() == 0 {
        Some(0)
    } else {
        match radix_value(s.drop_last(), radix, lenient) {
            None => None,
            Some(high) => if lenient && s.last() == '_' {
                Some(high)
            } else {
                match digit_value(s.last()) {
                    Some(d) => if d < radix {
                        Some(high * radix + d)
                    } else {
                        None
                    },
                    None => None,
                }
            },
        }
    }
}

/// The `u64` that `s` denotes: decimal digits, at least one of them, after an
/// optional plus sign.
pub open spec fn u64_denoted(s: Seq<char>) -> Option<u64> {
    let digits = if s.len() > 0 && s[0] == '+' {
        s.skip(1)
    } else {
        s
    };
    if digits.len() == 0 {
        None
    } else {
        match radix_value(digits, 10, false) {
            Some(n) => if n <= u64::MAX {
                Some(n as u64)
            } else {
                None
            },
            None => None,
        }
    }
}

/// The hexadecimal digit `d`, for `d` below sixteen, in lower case.
pub open spec fn nibble_char(d: nat) -> char {
    if d < 10 {
        (48 + d) as char
    } else {
        (87 + d) as char
    }
}

/// The bytes in lower-case hexadecimal notation, two digits to a byte.
pub open spec fn hex(bytes: Seq<u8>) -> Seq<char> {
    Seq::new(
        2 * bytes.len(),
        |i: int|
            if i % 2 == 0 {
                nibble_char((bytes[i / 2] / 16) as nat)
            } else {
                nibble_char((bytes[i / 2] % 16) as nat)
            },
    )
}

/// What the character `c` counts as a hexadecimal digit.
pub open spec fn nibble_value(c: char) -> Option<nat> {
    match digit_value(c) {
        Some(d) => if d < 16 {
            Some(d)
        } else {
            None
        },
        None => None,
    }
}

/// The text behind an optional `0x` or `0X`.
pub open spec fn without_hex_prefix(s: Seq<char>) -> Seq<char> {
    if s.len() >= 2 && s[0] == '0' && (s[1] == 'x' || s[1] == 'X') {
        s.skip(2)
    } else {
        s
    }
}

/// The `n` bytes that `s` denotes in hexadecimal notation, with or without a
/// prefix; `None` where `s` is not made of exactly `2 * n` digits.
pub open spec fn hex_denoted(s: Seq<char>, n: nat) -> Option<Seq<u8>> {
    let digits = without_hex_prefix(s);
    if digits.len() == 2 * n && forall|i: int|
        0 <= i < digits.len() ==> nibble_value(#[trigger] digits[i]) is Some {
        Some(
            Seq::new(
                n,
                |i: int|
                    (nibble_value(digits[2 * i])->0 * 16 + nibble_value(
                        digits[2 * i + 1],
                    )->0) as u8,
            ),
        )
    } else {
        None
    }
}

/// Decimal notation is read back: the digits of `n` denote `n` in base ten.
pub proof fn decimal_denotes(n: nat, lenient: bool)
    ensures
        radix_value(decimal(n), 10, lenient) == Some(n),
        decimal(n).len() > 0,
        forall|i: int| 0 <= i < decimal(n).len() ==> '0' <= #[trigger] decimal(n)[i] <= '9',
    decreases n,
{
    reveal_with_fuel(radix_value, 2);
    if n < 10 {
        assert(decimal(n).drop_last() =~= Seq::<char>::empty());
    } else {
        decimal_denotes(n / 10, lenient);
        assert(decimal(n).drop_last() =~= decimal(n / 10));
        assert((n / 10) * 10 + n % 10 == n);
    }
}

/// Ten to the power of `k`.
pub open spec fn power_of_ten(k: nat) -> nat
    decreases k,
{
    if k == 0 {
        1
    } else {
        10 * power_of_ten((k - 1) as nat)
    }
}

/// A number below ten to the power of `k` has at most `k` digits.
proof fn decimal_digits(n: nat, k: nat)
    requires
        k > 0,
        n < power_of_ten(k),
    ensures
        decimal(n).len() <= k,
    decreases k,
{
    if n >= 10 {
        assert(power_of_ten(k) == 10 * power_of_ten((k - 1) as nat));
        assert(k > 1) by {
            reveal_with_fuel(power_of_ten, 2);
        }
        decimal_digits(n / 10, (k - 1) as nat);
    }
}

/// A `u64` has at most twenty digits.
pub proof fn decimal_length(n: u64)
    ensures
        decimal(n as nat).len() <= 20,
{
    reveal_with_fuel(power_of_ten, 21);
    decimal_digits(n as nat, 20);
}

/// Two numbers with the same decimal notation are the same number.
pub proof fn decimal_injective(m: nat, n: nat)
    requires
        decimal(m) == decimal(n),
    ensures
        m == n,
{
    decimal_denotes(m, false);
    decimal_denotes(n, false);
}

/// A `u64` is read back from its decimal notation.
pub proof fn u64_reads_back(n: u64)
    ensures
        u64_denoted(decimal(n as nat)) == Some(n),
{
    decimal_denotes(n as nat, false);
}

/// Bytes are read back from their hexadecimal notation, with the prefix and
/// without it.
pub proof fn hex_reads_back(bytes: Seq<u8>)
    ensures
        hex_denoted(hex(bytes), bytes.len()) == Some(bytes),
        hex_denoted(seq!['0', 'x'] + hex(bytes), bytes.len()) == Some(bytes),
{
    let h = hex(bytes);
    let p = seq!['0', 'x'] + h;
    assert forall|i: int| 0 <= i < h.len() implies nibble_value(#[trigger] h[i]) is Some by {}
    assert(p.skip(2) =~= h);
    if h.len() >= 2 {
        assert(nibble_value(h[1]) is Some);
    }
    let back = Seq::new(
        bytes.len(),
        |i: int| (nibble_value(h[2 * i])->0 * 16 + nibble_value(h[2 * i + 1])->0) as u8,
    );
    assert(back =~= bytes);
}

/// Whether the two texts are the same.
pub fn same_text(a: &str, b: &str) -> (same: bool)
    ensures
        same == (a@ == b@),
{
    a.to_owned() == b.to_owned()
}

/// Whether the text is empty.
pub fn is_empty(s: &str) -> (empty: bool)
    ensures
        empty == (s@.len() == 0),
{
    proof {
        reveal_strlit("");
        if s@.len() == 0 {
            assert(s@ =~= ""@);
        }
    }
    same_text(s, "")
}

/// The text `a` followed by the text `b`.
pub fn join2(a: &str, b: &str) -> (text: String)
    ensures
        text@ == a@ + b@,
{
    let mut text = a.to_owned();
    text.append(b);
    text
}

/// The digit `d` as a text.
fn digit_text(d: u64) -> (text: &'static str)
    requires
        d < 10,
    ensures
        text@ == seq![digit_char(d as nat)],
{
    proof {
        reveal_strlit("0");
        reveal_strlit("1");
        reveal_strlit("2");
        reveal_strlit("3");
        reveal_strlit("4");
        reveal_strlit("5");
        reveal_strlit("6");
        reveal_strlit("7");
        reveal_strlit("8");
        reveal_strlit("9");
    }
    match d {
        0 => "0",
        1 => "1",
        2 => "2",
        3 => "3",
        4 => "4",
        5 => "5",
        6 => "6",
        7 => "7",
        8 => "8",
        _ => "9",
    }
}

/// `n` in decimal notation.
pub fn decimal_text(n: u64) -> (text: String)
    ensures
        text@ == decimal(n as nat),
    decreases n,
{
    if n < 10 {
        digit_text(n).to_owned()
    } else {
        let mut text = decimal_text(n / 10);
        text.append(digit_text(n % 10));
        text
    }
}

/// What `std` says of a text that denotes no `u64`.
pub uninterp spec fn u64_parse_message(s: Seq<char>) -> Seq<char>;

/// `str::parse` for `u64`: an optional plus sign and decimal digits are read
/// as the number they denote; every other text is an error, whose message
/// depends on the text alone.
#[verifier::external_body]
fn parse_u64(s: &str) -> (n: Result<u64, String>)
    ensures
        n matches Ok(n) ==> u64_denoted(s@) == Some(n),
        n matches Err(e) ==> u64_denoted(s@) is None && e@ == u64_parse_message(s@),
{
    match s.parse::<u64>() {
        Ok(n) => Ok(n),
        Err(e) => Err(e.to_string()),
    }
}

/// The `u64` that the text denotes, or an explanation of why it denotes none.
pub fn u64_of_text(s: &str) -> (n: Result<u64, String>)
    ensures
        match n {
            Ok(n) => u64_denoted(s@) == Some(n),
            Err(e) => u64_denoted(s@) is None && e@ == u64_parse_message(s@),
        },
{
    parse_u64(s)
}

/// Pairs of texts, such as the parameters of a query.
pub open spec fn pairs(v: Seq<(String, String)>) -> Seq<(Seq<char>, Seq<char>)> {
    v.map_values(|p: (String, String)| (p.0@, p.1@))
}

/// Adds a pair of texts at the end.
pub fn push_pair(v: &mut Vec<(String, String)>, key: &str, value: String)
    ensures
        final(v)@.len() == old(v)@.len() + 1,
        final(v)@.drop_last() == old(v)@,
        pairs(final(v)@) == pairs(old(v)@).push((key@, value@)),
{
    v.push((key.to_owned(), value));
    assert(v@.drop_last() =~= old(v)@);
    assert(pairs(v@) =~= pairs(old(v)@).push((key@, value@)));
}

/// The same pairs of texts once more.
pub fn copy_pairs(v: &Vec<(String, String)>) -> (copy: Vec<(String, String)>)
    ensures
        pairs(copy@) == pairs(v@),
{
    let mut copy: Vec<(String, String)> = Vec::new();
    let mut i: usize = 0;
    while i < v.len()
        invariant
            i <= v@.len(),
            copy@.len() == i,
            forall|j: int|
                0 <= j < i ==> (#[trigger] copy@[j]).0@ == v@[j].0@ && copy@[j].1@ == v@[j].1@,
        decreases v@.len() - i,
    {
        copy.push((v[i].0.clone(), v[i].1.clone()));
        i += 1;
    }
    assert(pairs(copy@) =~= pairs(v@));
    copy
}

/// The text `a`, then `b`, then `c`.
pub fn join3(a: &str, b: &str, c: &str) -> (text: String)
    ensures
        text@ == a@ + b@ + c@,
{
    let mut text = join2(a, b);
    text.append(c);
    text
}

/// The texts of a list of strings.
pub open spec fn texts(v: Seq<String>) -> Seq<Seq<char>> {
    v.map_values(|s: String| s@)
}

/// The texts one behind the other, with a comma and a blank between them.
pub open spec fn listed(items: Seq<Seq<char>>) -> Seq<char>
    decreases items.len(),
{
    if items.len() == 0 {
        seq![]
    } else if items.len() == 1 {
        items[0]
    } else {
        listed(items.drop_last()) + seq![',', ' '] + items.last()
    }
}

/// The texts one behind the other, with a comma and a blank between them.
pub fn listed_text(items: &Vec<String>) -> (text: String)
    ensures
        text@ == listed(texts(items@)),
{
    let mut text = String::new();
    let mut i: usize = 0;
    assert(texts(items@).take(0) =~= seq![]);
    while i < items.len()
        invariant
            i <= items@.len(),
            text@ == listed(texts(items@).take(i as int)),
        decreases items@.len() - i,
    {
        proof {
            reveal_strlit(", ");
            assert(", "@ =~= seq![',', ' ']);
            let upto = texts(items@).take(i + 1);
            assert(upto.drop_last() =~= texts(items@).take(i as int));
            assert(upto.last() == items@[i as int]@);
        }
        if i > 0 {
            text.append(", ");
        }
        text.append(&items[i]);
        i += 1;
    }
    assert(texts(items@).take(items@.len() as int) =~= texts(items@));
    text
}

/// A text as `std` shows it for debugging: in quotes, with escapes.
pub uninterp spec fn debug_written(s: Seq<char>) -> Seq<char>;

/// `Debug` of `str`: a function of the text, and not stated further here.
#[verifier::external_body]
pub(crate) fn debug_text(s: &str) -> (text: String)
    ensures
        text@ == debug_written(s@),
{
    format!("{s:?}")
}

/// `None`, or the text in `Some(..)`.
pub open spec fn option_written(item: Option<Seq<char>>) -> Seq<char> {
    match item {
        Some(item) => "Some("@ + item + ")"@,
        None => "None"@,
    }
}

/// `None`, or the text in `Some(..)`.
pub fn option_text(item: Option<String>) -> (text: String)
    ensures
        text@ == option_written(
            match item {
                Some(item) => Some(item@),
                None => None,
            },
        ),
{
    match item {
        Some(item) => join3("Some(", &item, ")"),
        None => "None".to_owned(),
    }
}

/// A list of one text is that text; every further one stands behind a comma and
/// a blank.
pub proof fn lists_are_separated(items: Seq<Seq<char>>, item: Seq<char>)
    ensures
        listed(seq![]) == Seq::<char>::empty(),
        listed(seq![item]) == item,
        items.len() > 0 ==> listed(items.push(item)) == listed(items) + seq![',', ' '] + item,
{
    if items.len() > 0 {
        assert(items.push(item).drop_last() =~= items);
    }
}

/// The digits of a number, one by one: the last one counts its ones, and those
/// before it are the digits of its tens.
pub proof fn digits_by_value(n: nat, s: String)
    requires
        n <= u64::MAX,
        call_ensures(decimal_text, (n as u64,), s),
    ensures
        s@.len() > 0,
        s@.last() == seq!['0', '1', '2', '3', '4', '5', '6', '7', '8', '9'][(n % 10) as int],
        n >= 10 ==> s@.drop_last() == decimal(n / 10),
        n < 10 ==> s@.len() == 1,
{
    let d = n % 10;
    assert(d == 0 || d == 1 || d == 2 || d == 3 || d == 4 || d == 5 || d == 6 || d == 7 || d == 8
        || d == 9);
    if n >= 10 {
        assert(s@.drop_last() =~= decimal(n / 10));
    }
}

} // verus!
