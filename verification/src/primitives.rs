//! The numbers, hashes and addresses that travel through the library.
//!
//! Each of them holds plain machine words. Reading and writing their text
//! forms is the work of `alloy`; the functions that call it stand at the end
//! of this file.

use crate::text;
use vstd::prelude::*;

verus! {

/// Two to the power of 256: the numbers below it fit in a [`U256`].
pub open spec fn u256_limit() -> nat {
    0x1_0000_0000_0000_0000_0000_0000_0000_0000_0000_0000_0000_0000_0000_0000_0000_0000nat
}

/// Two to the power of 64.
pub open spec fn word_limit() -> nat {
    0x1_0000_0000_0000_0000nat
}

/// The number that four 64-bit words stand for, the lowest word first.
pub open spec fn limbs_value(limbs: Seq<u64>) -> nat {
    limbs[0] as nat + word_limit() * (limbs[1] as nat + word_limit() * (limbs[2] as nat
        + word_limit() * limbs[3] as nat))
}

/// The number that `s` denotes: digits in base 16 behind `0x`, in base 8
/// behind `0o`, in base 2 behind `0b`, in base 10 otherwise, with underscores
/// passed over. `None` where another character occurs or the number does not
/// fit in 256 bits.
pub open spec fn u256_denoted(s: Seq<char>) -> Option<nat> {
    let radix: nat = if s.len() >= 2 && s[0] == '0' {
        if s[1] == 'x' || s[1] == 'X' {
            16
        } else if s[1] == 'o' || s[1] == 'O' {
            8
        } else if s[1] == 'b' || s[1] == 'B' {
            2
        } else {
            10
        }
    } else {
        10
    };
    let digits = if radix == 10 {
        s
    } else {
        s.skip(2)
    };
    match text::radix_value(digits, radix, true) {
        Some(n) => if n < u256_limit() {
            Some(n)
        } else {
            None
        },
        None => None,
    }
}

/// An unsigned 256-bit number.
#[derive(Debug, Clone, Copy)]
pub struct U256 {
    /// The number's 64-bit words, the lowest first.
    pub limbs: [u64; 4],
}

impl View for U256 {
    type V = nat;

    open spec fn view(&self) -> nat {
        limbs_value(self.limbs@)
    }
}

impl PartialEq for U256 {
    fn eq(&self, other: &Self) -> (same: bool) {
        let same = self.limbs[0] == other.limbs[0] && self.limbs[1] == other.limbs[1]
            && self.limbs[2] == other.limbs[2] && self.limbs[3] == other.limbs[3];
        proof {
            if same {
                assert(self.limbs =~= other.limbs);
            }
        }
        same
    }
}

impl Eq for U256 {

}

impl vstd::std_specs::cmp::PartialEqSpecImpl for U256 {
    open spec fn obeys_eq_spec() -> bool {
        true
    }

    open spec fn eq_spec(&self, other: &Self) -> bool {
        *self == *other
    }
}

impl U256 {
    /// Zero.
    pub fn zero() -> (n: U256)
        ensures
            n@ == 0,
    {
        U256 { limbs: [0, 0, 0, 0] }
    }

    /// The largest number that fits in 256 bits.
    pub fn max_value() -> (n: U256)
        ensures
            n@ == u256_limit() - 1,
    {
        U256 { limbs: [u64::MAX, u64::MAX, u64::MAX, u64::MAX] }
    }

    /// The number `value`.
    pub fn from_u64(value: u64) -> (n: U256)
        ensures
            n@ == value,
    {
        U256 { limbs: [value, 0, 0, 0] }
    }

    /// The number in decimal notation.
    pub fn to_decimal(&self) -> (s: String)
        ensures
            s@ == text::decimal(self@),
    {
        u256_text(self.limbs)
    }

    /// The number that `s` denotes.
    pub fn from_text(s: &str) -> (n: Option<U256>)
        ensures
            n is Some <==> u256_denoted(s@) is Some,
            n matches Some(n) ==> u256_denoted(s@) == Some(n@),
    {
        match u256_parse(s) {
            Some(limbs) => Some(U256 { limbs }),
            None => None,
        }
    }
}

/// A lowest word and what stands above it are determined by the number that
/// they make.
proof fn lowest_word(a: u64, b: u64, above_a: nat, above_b: nat)
    requires
        a as nat + word_limit() * above_a == b as nat + word_limit() * above_b,
    ensures
        a == b,
        above_a == above_b,
{
}

/// A number determines its words: two [`U256`] of one value are equal.
pub proof fn u256_value_determines(a: U256, b: U256)
    requires
        a@ == b@,
    ensures
        a == b,
{
    let (x, y) = (a.limbs@, b.limbs@);
    let x2 = x[2] as nat + word_limit() * x[3] as nat;
    let y2 = y[2] as nat + word_limit() * y[3] as nat;
    let x1 = x[1] as nat + word_limit() * x2;
    let y1 = y[1] as nat + word_limit() * y2;
    lowest_word(x[0], y[0], x1, y1);
    lowest_word(x[1], y[1], x2, y2);
    lowest_word(x[2], y[2], x[3] as nat, y[3] as nat);
    assert(x =~= y);
    assert(a.limbs =~= b.limbs);
}

/// Every [`U256`] lies below the limit.
pub proof fn u256_in_range(n: U256)
    ensures
        n@ < u256_limit(),
{
}

/// A number is read back from its decimal notation.
pub proof fn u256_reads_back(n: U256)
    ensures
        u256_denoted(text::decimal(n@)) == Some(n@),
{
    let s = text::decimal(n@);
    text::decimal_denotes(n@, true);
    if s.len() >= 2 {
        assert('0' <= s[1] <= '9');
    }
}

/// Thirty-two bytes: a hash or an identifier.
#[derive(Debug, Clone, Copy)]
pub struct B256 {
    pub bytes: [u8; 32],
}

impl View for B256 {
    type V = Seq<u8>;

    open spec fn view(&self) -> Seq<u8> {
        self.bytes@
    }
}

impl PartialEq for B256 {
    fn eq(&self, other: &Self) -> (same: bool) {
        let mut i: usize = 0;
        while i < 32
            invariant
                i <= 32,
                forall|j: int| 0 <= j < i ==> self.bytes[j] == other.bytes[j],
            decreases 32 - i,
        {
            if self.bytes[i] != other.bytes[i] {
                return false;
            }
            i += 1;
        }
        assert(self.bytes =~= other.bytes);
        true
    }
}

impl Eq for B256 {

}

impl vstd::std_specs::cmp::PartialEqSpecImpl for B256 {
    open spec fn obeys_eq_spec() -> bool {
        true
    }

    open spec fn eq_spec(&self, other: &Self) -> bool {
        *self == *other
    }
}

impl B256 {
    /// Thirty-two zero bytes.
    pub fn zero() -> (b: B256)
        ensures
            b@ == Seq::new(32, |i: int| 0u8),
    {
        let b = B256 { bytes: [0; 32] };
        assert(b@ =~= Seq::new(32, |i: int| 0u8));
        b
    }

    /// The bytes in hexadecimal notation, behind `0x`.
    pub fn to_hex(&self) -> (s: String)
        ensures
            s@ == seq!['0', 'x'] + text::hex(self@),
    {
        b256_text(self.bytes)
    }

    /// The bytes that `s` denotes: 64 hexadecimal digits, with or without
    /// `0x` before them. Otherwise an explanation of what is wrong with `s`.
    pub fn from_text(s: &str) -> (b: Result<B256, String>)
        ensures
            b is Ok <==> text::hex_denoted(s@, 32) is Some,
            b matches Ok(b) ==> text::hex_denoted(s@, 32) == Some(b@),
            b matches Err(e) ==> e@ == b256_parse_message(s@),
    {
        match b256_parse(s) {
            Ok(bytes) => Ok(B256 { bytes }),
            Err(e) => Err(e),
        }
    }
}

/// Thirty-two bytes are read back from their hexadecimal notation.
pub proof fn b256_reads_back(b: B256)
    ensures
        text::hex_denoted(seq!['0', 'x'] + text::hex(b@), 32) == Some(b@),
{
    text::hex_reads_back(b@);
}

/// The bytes determine the value: two [`B256`] of the same bytes are equal.
pub proof fn b256_bytes_determine(a: B256, b: B256)
    requires
        a@ == b@,
    ensures
        a == b,
{
    assert(a.bytes =~= b.bytes);
}

/// The address of an account or a contract.
#[derive(Debug, Clone, Copy)]
pub struct Address {
    pub bytes: [u8; 20],
}

impl View for Address {
    type V = Seq<u8>;

    open spec fn view(&self) -> Seq<u8> {
        self.bytes@
    }
}

impl PartialEq for Address {
    fn eq(&self, other: &Self) -> (same: bool) {
        let mut i: usize = 0;
        while i < 20
            invariant
                i <= 20,
                forall|j: int| 0 <= j < i ==> self.bytes[j] == other.bytes[j],
            decreases 20 - i,
        {
            if self.bytes[i] != other.bytes[i] {
                return false;
            }
            i += 1;
        }
        assert(self.bytes =~= other.bytes);
        true
    }
}

impl Eq for Address {

}

impl vstd::std_specs::cmp::PartialEqSpecImpl for Address {
    open spec fn obeys_eq_spec() -> bool {
        true
    }

    open spec fn eq_spec(&self, other: &Self) -> bool {
        *self == *other
    }
}

/// `c` as a lower-case letter, where it is an upper-case one.
pub open spec fn lower_case(c: char) -> char {
    if 'A' <= c && c <= 'Z' {
        (c as nat + 32) as char
    } else {
        c
    }
}

/// Whether the text is `0x` and the hexadecimal digits of the bytes, their
/// letters in either case.
pub open spec fn is_address_text(s: Seq<char>, bytes: Seq<u8>) -> bool {
    &&& s.len() == 2 + 2 * bytes.len()
    &&& s[0] == '0'
    &&& s[1] == 'x'
    &&& s.skip(2).map_values(|c: char| lower_case(c)) == text::hex(bytes)
}

/// Hexadecimal notation is read the same whatever the case of its letters.
proof fn case_does_not_matter(s: Seq<char>, bytes: Seq<u8>)
    requires
        is_address_text(s, bytes),
    ensures
        text::hex_denoted(s, bytes.len()) == Some(bytes),
{
    let h = text::hex(bytes);
    let lower = s.skip(2).map_values(|c: char| lower_case(c));
    let digits = s.skip(2);
    assert forall|i: int| 0 <= i < digits.len() implies text::nibble_value(#[trigger] digits[i])
        == text::nibble_value(h[i]) && text::nibble_value(h[i]) is Some by {
        assert(lower[i] == lower_case(digits[i]));
    }
    let read = Seq::new(
        bytes.len(),
        |i: int|
            (text::nibble_value(digits[2 * i])->0 * 16 + text::nibble_value(
                digits[2 * i + 1],
            )->0) as u8,
    );
    assert(read =~= bytes);
}

impl Address {
    /// The address of twenty zero bytes.
    pub fn zero() -> (a: Address)
        ensures
            a@ == Seq::new(20, |i: int| 0u8),
    {
        let a = Address { bytes: [0; 20] };
        assert(a@ =~= Seq::new(20, |i: int| 0u8));
        a
    }

    /// The address in hexadecimal notation, behind `0x`, with the letters'
    /// case as its checksum. The address is read back from it.
    pub fn to_checksum(&self) -> (s: String)
        ensures
            s@ == checksummed(self@),
            is_address_text(s@, self@),
            text::hex_denoted(s@, 20) == Some(self@),
    {
        let s = address_checksum(self.bytes);
        proof {
            case_does_not_matter(s@, self@);
        }
        s
    }

    /// The address in lower-case hexadecimal notation, behind `0x`.
    pub fn to_hex(&self) -> (s: String)
        ensures
            s@ == seq!['0', 'x'] + text::hex(self@),
    {
        hex_prefixed(&self.bytes)
    }
}

/// The bytes determine the value: two [`Address`] of the same bytes are equal.
pub proof fn address_bytes_determine(a: Address, b: Address)
    requires
        a@ == b@,
    ensures
        a == b,
{
    assert(a.bytes =~= b.bytes);
}

/// The 64 bits of a double-precision number. The library carries such
/// numbers and tells them apart; it does not calculate with them.
#[derive(Debug, Clone, Copy, PartialEq, Eq, Structural)]
pub struct F64 {
    pub bits: u64,
}

/// A point in time: seconds since the start of 1970 in UTC, and nanoseconds
/// of the second.
#[derive(Debug, Clone, Copy, PartialEq, Eq, Structural)]
pub struct Instant {
    pub secs: i64,
    pub nanos: u32,
}

/// `Display` of `alloy::primitives::U256`, for the number that the words
/// stand for: its decimal notation without leading zeros.
#[verifier::external_body]
fn u256_text(limbs: [u64; 4]) -> (s: String)
    ensures
        s@ == text::decimal(limbs_value(limbs@)),
{
    alloy::primitives::U256::from_limbs(limbs).to_string()
}

/// `FromStr` of `alloy::primitives::U256`: reads the notations that
/// [`u256_denoted`] describes, and refuses every other text.
#[verifier::external_body]
fn u256_parse(s: &str) -> (limbs: Option<[u64; 4]>)
    ensures
        limbs is Some <==> u256_denoted(s@) is Some,
        limbs matches Some(limbs) ==> u256_denoted(s@) == Some(limbs_value(limbs@)),
{
    s.parse::<alloy::primitives::U256>().ok().map(|n| n.into_limbs())
}

/// `Display` of `alloy::primitives::B256`: `0x` and two lower-case
/// hexadecimal digits for each byte.
#[verifier::external_body]
fn b256_text(bytes: [u8; 32]) -> (s: String)
    ensures
        s@ == seq!['0', 'x'] + text::hex(bytes@),
{
    alloy::primitives::B256::from(bytes).to_string()
}

/// What `alloy` says of a text that does not denote thirty-two bytes.
pub uninterp spec fn b256_parse_message(s: Seq<char>) -> Seq<char>;

/// `FromStr` of `alloy::primitives::B256`: reads 64 hexadecimal digits of
/// either case, with or without `0x` before them, and refuses every other
/// text with a message that depends on the text alone.
#[verifier::external_body]
fn b256_parse(s: &str) -> (bytes: Result<[u8; 32], String>)
    ensures
        bytes is Ok <==> text::hex_denoted(s@, 32) is Some,
        bytes matches Ok(bytes) ==> text::hex_denoted(s@, 32) == Some(bytes@),
        bytes matches Err(e) ==> e@ == b256_parse_message(s@),
{
    match s.parse::<alloy::primitives::B256>() {
        Ok(b) => Ok(b.0),
        Err(e) => Err(e.to_string()),
    }
}

/// The checksummed notation of an address: a function of its twenty bytes.
pub uninterp spec fn checksummed(bytes: Seq<u8>) -> Seq<char>;

/// `alloy::primitives::Address::to_checksum` without a chain id: `0x` and the
/// hexadecimal digits of the bytes, some of their letters in upper case. Which
/// ones is a function of the bytes, and not stated here.
#[verifier::external_body]
fn address_checksum(bytes: [u8; 20]) -> (s: String)
    ensures
        s@ == checksummed(bytes@),
        is_address_text(s@, bytes@),
{
    alloy::primitives::Address::from(bytes).to_checksum(None)
}

/// `alloy::hex::encode_prefixed`: `0x` and two lower-case hexadecimal digits
/// for each byte.
#[verifier::external_body]
fn hex_prefixed(bytes: &[u8]) -> (s: String)
    requires
        2 * bytes@.len() + 2 <= isize::MAX,
    ensures
        s@ == seq!['0', 'x'] + text::hex(bytes@),
{
    alloy::hex::encode_prefixed(bytes)
}

/// `alloy::hex::encode`: two lower-case hexadecimal digits for each byte.
#[verifier::external_body]
pub(crate) fn hex_digits(bytes: &[u8]) -> (s: String)
    requires
        2 * bytes@.len() + 2 <= isize::MAX,
    ensures
        s@ == text::hex(bytes@),
{
    alloy::hex::encode(bytes)
}

/// A number counts its words from the lowest one on, each for two to the power
/// of 64 times the one before.
pub proof fn words_count_from_the_lowest(n: U256)
    ensures
        n@ == n.limbs[0] + 0x1_0000_0000_0000_0000 * n.limbs[1]
            + 0x1_0000_0000_0000_0000_0000_0000_0000_0000 * n.limbs[2]
            + 0x1_0000_0000_0000_0000_0000_0000_0000_0000_0000_0000_0000_0000 * n.limbs[3],
{
}

/// Two numbers, two identifiers and two addresses compare as equal if and only
/// if they are the same number or the same bytes.
pub proof fn equal_where_the_same(
    n: U256,
    m: U256,
    same_number: bool,
    b: B256,
    c: B256,
    same_bytes: bool,
    x: Address,
    y: Address,
    same_address: bool,
)
    requires
        call_ensures(U256::eq, (&n, &m), same_number),
        call_ensures(B256::eq, (&b, &c), same_bytes),
        call_ensures(Address::eq, (&x, &y), same_address),
    ensures
        same_number <==> n@ == m@,
        same_bytes <==> b@ == c@,
        same_address <==> x@ == y@,
{
    if n@ == m@ {
        u256_value_determines(n, m);
    }
    if b@ == c@ {
        b256_bytes_determine(b, c);
    }
    if x@ == y@ {
        address_bytes_determine(x, y);
    }
}

} // verus!
