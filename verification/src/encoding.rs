//! Base64, keyed hashes and URLs: the notations of the exchange's
//! interface that the library writes and reads through outside crates.

use crate::text;
use base64::Engine;
use hmac::Mac;
use vstd::prelude::*;

verus! {

/// The digit that stands for `v`, below 64, in the URL-safe alphabet.
pub open spec fn base64_char(v: int) -> char {
    if v < 26 {
        (65 + v) as char
    } else if v < 52 {
        (71 + v) as char
    } else if v < 62 {
        (v - 4) as char
    } else if v == 62 {
        '-'
    } else {
        '_'
    }
}

/// The bytes in base64 notation: the URL-safe alphabet, with padding.
pub open spec fn base64_url(bytes: Seq<u8>) -> Seq<char>
    decreases bytes.len(),
{
    if bytes.len() == 0 {
        seq![]
    } else if bytes.len() == 1 {
        seq![base64_char(bytes[0] as int / 4), base64_char(bytes[0] % 4 * 16), '=', '=']
    } else if bytes.len() == 2 {
        seq![
            base64_char(bytes[0] as int / 4),
            base64_char(bytes[0] % 4 * 16 + bytes[1] / 16),
            base64_char(bytes[1] % 16 * 4),
            '=',
        ]
    } else {
        seq![
            base64_char(bytes[0] as int / 4),
            base64_char(bytes[0] % 4 * 16 + bytes[1] / 16),
            base64_char(bytes[1] % 16 * 4 + bytes[2] / 64),
            base64_char(bytes[2] as int % 64),
        ] + base64_url(bytes.skip(3))
    }
}

/// Base64 notation has four digits for every three bytes or part of them.
pub proof fn base64_url_length(bytes: Seq<u8>)
    ensures
        base64_url(bytes).len() == 4 * ((bytes.len() + 2) / 3),
    decreases bytes.len(),
{
    if bytes.len() >= 3 {
        base64_url_length(bytes.skip(3));
    }
}

/// Two numbers below 64 with the same digit are equal, and no digit is the
/// padding character.
proof fn base64_char_injective(v: int, w: int)
    requires
        0 <= v < 64,
        0 <= w < 64,
    ensures
        base64_char(v) == base64_char(w) ==> v == w,
        base64_char(v) != '=',
{
}

/// Base64 loses nothing: two texts of bytes with the same notation are equal.
pub proof fn base64_url_injective(a: Seq<u8>, b: Seq<u8>)
    requires
        base64_url(a) == base64_url(b),
    ensures
        a == b,
    decreases a.len(),
{
    let s = base64_url(a);
    if a.len() == 0 || b.len() == 0 {
        assert(a.len() > 0 ==> s.len() >= 4);
        assert(b.len() > 0 ==> base64_url(b).len() >= 4);
        assert(a =~= b);
    } else {
        let (a0, b0) = (a[0] as int, b[0] as int);
        let (a1, b1) = (a[1] as int, b[1] as int);
        let (a2, b2) = (a[2] as int, b[2] as int);
        assert(s[0] == base64_char(a0 / 4) && s[0] == base64_char(b0 / 4));
        base64_char_injective(a0 / 4, b0 / 4);
        base64_char_injective(a0 % 4 * 16, b0 % 4 * 16);
        base64_char_injective(a0 % 4 * 16 + a1 / 16, b0 % 4 * 16 + b1 / 16);
        base64_char_injective(a1 % 16 * 4, b1 % 16 * 4);
        base64_char_injective(b1 % 16 * 4, a1 % 16 * 4);
        base64_char_injective(a1 % 16 * 4 + a2 / 64, b1 % 16 * 4 + b2 / 64);
        base64_char_injective(b1 % 16 * 4 + b2 / 64, a1 % 16 * 4 + a2 / 64);
        base64_char_injective(a2 % 64, b2 % 64);
        base64_char_injective(b2 % 64, a2 % 64);
        if a.len() == 1 {
            assert(s[2] == '=');
            assert(b.len() == 1);
            assert(s[1] == base64_char(b0 % 4 * 16));
            assert(a =~= b);
        } else if a.len() == 2 {
            assert(s[3] == '=' && s[2] == base64_char(a1 % 16 * 4));
            assert(b.len() == 2);
            assert(s[1] == base64_char(b0 % 4 * 16 + b1 / 16));
            assert(s[2] == base64_char(b1 % 16 * 4));
            assert(a =~= b);
        } else {
            assert(s[2] == base64_char(a1 % 16 * 4 + a2 / 64));
            assert(s[3] == base64_char(a2 % 64));
            assert(b.len() >= 3);
            assert(s[1] == base64_char(b0 % 4 * 16 + b1 / 16));
            assert(s[2] == base64_char(b1 % 16 * 4 + b2 / 64));
            assert(s[3] == base64_char(b2 % 64));
            assert(s.skip(4) =~= base64_url(a.skip(3)));
            assert(s.skip(4) =~= base64_url(b.skip(3)));
            base64_url_injective(a.skip(3), b.skip(3));
            assert(a =~= seq![a[0], a[1], a[2]] + a.skip(3));
            assert(b =~= seq![b[0], b[1], b[2]] + b.skip(3));
        }
    }
}

/// Why a text is not the base64 notation of any bytes.
#[derive(Debug, Clone, Copy, PartialEq, Eq, Structural)]
pub enum Base64Error {
    /// A byte outside the alphabet, with its position.
    InvalidByte(usize, u8),
    /// A length that no notation has.
    InvalidLength(usize),
    /// A last digit with bits that stand for nothing, with its position.
    InvalidLastSymbol(usize, u8),
    /// Padding that is missing or too long.
    InvalidPadding,
}

/// What `base64` finds wrong with a text that is no base64 notation.
pub uninterp spec fn base64_failure(s: Seq<char>) -> Base64Error;

/// `base64`'s URL-safe engine with padding, decoding: the bytes whose notation
/// is `s`, and where there are none an error that depends on `s` alone.
#[verifier::external_body]
pub(crate) fn base64_decode(s: &str) -> (bytes: Result<Vec<u8>, Base64Error>)
    ensures
        bytes matches Ok(bytes) ==> base64_url(bytes@) == s@,
        bytes matches Err(e) ==> e == base64_failure(s@) && forall|b: Seq<u8>| #[trigger]
            base64_url(b) != s@,
{
    base64::engine::general_purpose::URL_SAFE.decode(s).map_err(
        |e|
            match e {
                base64::DecodeError::InvalidByte(at, byte) => Base64Error::InvalidByte(at, byte),
                base64::DecodeError::InvalidLength(len) => Base64Error::InvalidLength(len),
                base64::DecodeError::InvalidLastSymbol(at, byte) => Base64Error::InvalidLastSymbol(
                    at,
                    byte,
                ),
                base64::DecodeError::InvalidPadding => Base64Error::InvalidPadding,
            },
    )
}

/// `base64`'s URL-safe engine with padding, encoding.
#[verifier::external_body]
pub(crate) fn base64_encode(bytes: &[u8]) -> (s: String)
    requires
        4 * ((bytes@.len() + 2) / 3) <= isize::MAX,
    ensures
        s@ == base64_url(bytes@),
{
    base64::engine::general_purpose::URL_SAFE.encode(bytes)
}

/// The HMAC-SHA256 of a message under a key: a function of the two.
pub uninterp spec fn hmac_sha256(key: Seq<u8>, message: Seq<u8>) -> Seq<u8>;

/// `hmac::Hmac<sha2::Sha256>`, over the whole message at once. A key of any
/// length is taken, and the code has thirty-two bytes.
#[verifier::external_body]
pub(crate) fn hmac(key: &[u8], message: &[u8]) -> (code: [u8; 32])
    ensures
        code@ == hmac_sha256(key@, message@),
{
    let mut mac = hmac::Hmac::<sha2::Sha256>::new_from_slice(key).expect("any key length");
    mac.update(message);
    mac.finalize().into_bytes().into()
}

/// Whether `c` is a lower-case letter.
pub open spec fn lower_letter(c: char) -> bool {
    'a' <= c && c <= 'z'
}

/// A host name of lower-case letters, with single dots and hyphens between
/// them.
pub open spec fn plain_host(host: Seq<char>) -> bool {
    &&& host.len() > 0
    &&& lower_letter(host[0])
    &&& lower_letter(host.last())
    &&& forall|i: int|
        0 <= i < host.len() ==> lower_letter(#[trigger] host[i]) || host[i] == '.' || host[i]
            == '-'
    &&& forall|i: int|
        0 < i < host.len() && !lower_letter(#[trigger] host[i]) ==> lower_letter(host[i - 1])
}

/// A path of letters, digits, underscores, hyphens and single slashes.
pub open spec fn plain_path(path: Seq<char>) -> bool {
    &&& forall|i: int| 0 <= i < path.len() ==> plain_path_char(#[trigger] path[i])
    &&& forall|i: int| 0 < i < path.len() && #[trigger] path[i] == '/' ==> path[i - 1] != '/'
}

/// A letter, a digit, an underscore, a hyphen or a slash.
pub open spec fn plain_path_char(c: char) -> bool {
    lower_letter(c) || ('A' <= c && c <= 'Z') || ('0' <= c && c <= '9') || c == '_' || c == '-' || c
        == '/'
}

/// A plain path stays one behind another, where not both have a slash between
/// them.
pub proof fn plain_paths_join(a: Seq<char>, b: Seq<char>)
    requires
        plain_path(a),
        plain_path(b),
        a.len() > 0 && b.len() > 0 ==> a.last() != '/' || b[0] != '/',
    ensures
        plain_path(a + b),
{
    let p = a + b;
    assert forall|i: int| 0 <= i < p.len() implies plain_path_char(#[trigger] p[i]) by {
        if i < a.len() {
            assert(plain_path_char(a[i]));
        } else {
            assert(plain_path_char(b[i - a.len()]));
        }
    }
    assert forall|i: int| 0 < i < p.len() && #[trigger] p[i] == '/' implies p[i - 1] != '/' by {
        if i < a.len() {
            assert(a[i] == '/');
        } else if i > a.len() {
            assert(b[i - a.len()] == '/');
        }
    }
}

/// Hexadecimal notation behind `0x` is a plain path.
pub proof fn hex_is_plain_path(bytes: Seq<u8>)
    ensures
        plain_path(seq!['0', 'x'] + text::hex(bytes)),
        (seq!['0', 'x'] + text::hex(bytes))[0] != '/',
{
}

/// Decimal notation is a short plain path.
pub proof fn decimal_is_plain_path(n: u64)
    ensures
        plain_path(text::decimal(n as nat)),
        text::decimal(n as nat)[0] != '/',
        0 < text::decimal(n as nat).len() <= 20,
{
    text::decimal_denotes(n as nat, false);
    text::decimal_length(n);
    let s = text::decimal(n as nat);
    assert(s[0] >= '0');
}

/// The URL of `path` at `host`, seen from the directory `dir`.
pub open spec fn url_at(host: Seq<char>, dir: Seq<char>, path: Seq<char>) -> Seq<char> {
    "https://"@ + host + (if path[0] == '/' {
        path
    } else if dir.len() == 0 {
        seq!['/'] + path
    } else {
        dir + path
    })
}

/// The most characters that a base and a path may have together: `url` counts
/// the positions in a URL with 32 bits.
pub const URL_LIMIT: u64 = 0xFFFF_FF00;

/// The text of a base over https.
pub open spec fn base_text(host: Seq<char>, dir: Seq<char>) -> Seq<char> {
    "https://"@ + host + dir
}

/// How many characters stand before the first slash.
pub open spec fn before_slash(s: Seq<char>) -> nat
    decreases s.len(),
{
    if s.len() == 0 || s[0] == '/' {
        0
    } else {
        1 + before_slash(s.skip(1))
    }
}

/// The host of a base over https: what stands between the scheme and the next
/// slash.
pub open spec fn host_of(base: Seq<char>) -> Seq<char> {
    let rest = base.skip(8);
    rest.take(before_slash(rest) as int)
}

/// The directory of a base over https: what stands behind the host.
pub open spec fn dir_of(base: Seq<char>) -> Seq<char> {
    let rest = base.skip(8);
    rest.skip(before_slash(rest) as int)
}

/// Whether the directory is nothing, or stands between slashes and needs no
/// normalisation.
pub open spec fn plain_dir(dir: Seq<char>) -> bool {
    &&& plain_path(dir)
    &&& dir.len() > 0 ==> dir[0] == '/' && dir.last() == '/'
}

/// Whether the base is one over https that needs no normalisation.
pub open spec fn plain_base(base: Seq<char>) -> bool {
    &&& base.len() >= 8
    &&& base.take(8) == "https://"@
    &&& plain_host(host_of(base))
    &&& plain_dir(dir_of(base))
}

/// The slash before a directory is the first one.
proof fn host_before_slash(host: Seq<char>, dir: Seq<char>)
    requires
        forall|i: int| 0 <= i < host.len() ==> #[trigger] host[i] != '/',
        dir.len() > 0 ==> dir[0] == '/',
    ensures
        before_slash(host + dir) == host.len(),
    decreases host.len(),
{
    let s = host + dir;
    if host.len() > 0 {
        assert(s[0] == host[0]);
        assert(s.skip(1) =~= host.skip(1) + dir);
        assert forall|i: int| 0 <= i < host.len() - 1 implies #[trigger] host.skip(1)[i]
            != '/' by {
            assert(host[i + 1] != '/');
        }
        host_before_slash(host.skip(1), dir);
    } else {
        assert(s =~= dir);
    }
}

/// A base is made of its host and its directory.
pub proof fn base_has_its_parts(host: Seq<char>, dir: Seq<char>)
    requires
        plain_host(host),
        plain_dir(dir),
    ensures
        plain_base(base_text(host, dir)),
        host_of(base_text(host, dir)) == host,
        dir_of(base_text(host, dir)) == dir,
{
    reveal_strlit("https://");
    let base = base_text(host, dir);
    assert(base.take(8) =~= "https://"@);
    assert(base.skip(8) =~= host + dir);
    assert forall|i: int| 0 <= i < host.len() implies #[trigger] host[i] != '/' by {
        assert(lower_letter(host[i]) || host[i] == '.' || host[i] == '-');
    }
    host_before_slash(host, dir);
    assert(host_of(base) =~= host);
    assert(dir_of(base) =~= dir);
}

/// Where a service of the exchange is reached: a host, and a directory there.
#[derive(Debug, Clone, Copy)]
pub struct BaseUrl {
    /// The host's name.
    pub host: &'static str,
    /// The directory, between slashes, or nothing for the host's root.
    pub dir: &'static str,
}

impl BaseUrl {
    /// A host and a directory that need no normalisation, and that leave room
    /// for a path.
    pub open spec fn wf(&self) -> bool {
        &&& plain_host(self.host@)
        &&& plain_dir(self.dir@)
        &&& self.host@.len() + self.dir@.len() <= URL_LIMIT / 2
    }

    /// The URL of `path`, seen from here.
    pub fn join(&self, path: &str) -> (url: String)
        requires
            self.wf(),
            plain_path(path@),
            0 < path@.len() < URL_LIMIT / 2 - 8,
        ensures
            url@ == url_at(self.host@, self.dir@, path@),
    {
        let base = text::join2(&text::join2("https://", self.host), self.dir);
        proof {
            reveal_strlit("https://");
            base_has_its_parts(self.host@, self.dir@);
        }
        url_join(&base, path)
    }
}

/// `reqwest::Url::parse` of a base over https, and `Url::join` with a path.
/// For bases and paths that need no normalisation, the text of the result is
/// the host with the path behind it: behind the host's root where the path
/// starts with a slash, behind the base's directory otherwise. A URL whose
/// positions do not fit in 32 bits is refused.
#[verifier::external_body]
fn url_join(base: &str, path: &str) -> (url: String)
    requires
        plain_base(base@),
        plain_path(path@),
        0 < path@.len(),
        base@.len() + path@.len() <= URL_LIMIT,
    ensures
        url@ == url_at(host_of(base@), dir_of(base@), path@),
{
    let base = reqwest::Url::parse(base).expect("a valid base");
    base.join(path).expect("a valid url").as_str().to_owned()
}

} // verus!
