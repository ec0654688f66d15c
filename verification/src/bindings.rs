//! The calls into outside crates that the delivery-service logic makes:
//! URL-safe base64 (`base64`), URL path replacement (`url`), and the TLS
//! decoding of the client list (`tls_codec`). Each call is a trusted item
//! whose contract is believed, not proved.
use vstd::prelude::*;
use tls_codec::{Deserialize, TlsVecU32};
use crate::framing::{client_list, hits_reserved_prefix};

verus! {

/// The digit for a six-bit value in the URL-safe base64 alphabet
/// (RFC 4648, section 5): `A`-`Z`, `a`-`z`, `0`-`9`, `-`, `_`.
pub open spec fn url_safe_digit(v: int) -> char {
    if v < 26 {
        (65 + v) as char
    } else if v < 52 {
        (71 + v) as char
    } else if v < 62 {
        (v - 4) as char
    } else if v == 62 {
        '-'
    } else {
        '_'
    }
}

/// URL-safe base64 with `=` padding: each group of three bytes becomes
/// four digits of six bits each, most significant first; a last group of
/// one or two bytes is padded with zero bits and `=` to four characters.
pub open spec fn base64_url_safe(b: Seq<u8>) -> Seq<char>
    decreases b.len(),
{
    if b.len() == 0 {
        seq![]
    } else if b.len() == 1 {
        seq![url_safe_digit((b[0] / 4) as int), url_safe_digit(((b[0] % 4) * 16) as int), '=', '=']
    } else if b.len() == 2 {
        seq![
            url_safe_digit((b[0] / 4) as int),
            url_safe_digit(((b[0] % 4) * 16 + b[1] / 16) as int),
            url_safe_digit(((b[1] % 16) * 4) as int),
            '=',
        ]
    } else {
        seq![
            url_safe_digit((b[0] / 4) as int),
            url_safe_digit(((b[0] % 4) * 16 + b[1] / 16) as int),
            url_safe_digit(((b[1] % 16) * 4 + b[2] / 64) as int),
            url_safe_digit((b[2] % 64) as int),
        ] + base64_url_safe(b.skip(3))
    }
}

/// An encoding has four characters for each group of three bytes started.
pub proof fn lemma_base64_len(b: Seq<u8>)
    ensures
        base64_url_safe(b).len() == 4 * ((b.len() + 2) / 3),
    decreases b.len(),
{
    if b.len() >= 3 {
        lemma_base64_len(b.skip(3));
    }
}

/// The characters that `url::Url::set_path` writes into the path of a URL
/// as they are, one byte each: ASCII letters and digits, `-`, `_`, `=` and
/// `/` (none is in the path percent-encode set, and none makes a `.` or
/// `..` segment).
pub open spec fn is_plain_path_char(c: char) -> bool {
    ||| 'a' <= c <= 'z'
    ||| 'A' <= c <= 'Z'
    ||| '0' <= c <= '9'
    ||| c == '-'
    ||| c == '_'
    ||| c == '='
    ||| c == '/'
}

/// A path of plain characters only.
pub open spec fn is_plain_path(p: Seq<char>) -> bool {
    forall|i: int| 0 <= i < p.len() ==> is_plain_path_char(#[trigger] p[i])
}

/// At most how many bytes `path` takes once `set_path` has put it in a
/// URL: one per character of a plain path, with the leading `/` that may be
/// added; otherwise twelve per character (a four-byte UTF-8 character,
/// each byte percent-encoded), and that `/`.
pub open spec fn path_bytes(p: Seq<char>) -> nat {
    if is_plain_path(p) {
        p.len() + 1
    } else {
        12 * p.len() + 1
    }
}

/// Every character of a URL-safe base64 encoding is plain in a path.
pub proof fn lemma_base64_plain(b: Seq<u8>)
    ensures
        is_plain_path(base64_url_safe(b)),
    decreases b.len(),
{
    if b.len() >= 3 {
        lemma_base64_plain(b.skip(3));
        let e = base64_url_safe(b);
        let head = seq![
            url_safe_digit((b[0] / 4) as int),
            url_safe_digit(((b[0] % 4) * 16 + b[1] / 16) as int),
            url_safe_digit(((b[1] % 16) * 4 + b[2] / 64) as int),
            url_safe_digit((b[2] % 64) as int),
        ];
        assert(e == head + base64_url_safe(b.skip(3)));
        assert forall|i: int| 0 <= i < e.len() implies is_plain_path_char(#[trigger] e[i]) by {
            if i >= 4 {
                assert(e[i] == base64_url_safe(b.skip(3))[i - 4]);
            }
        }
    }
}

/// What `url::Url::parse(text)` gives: the serialization of the parsed URL,
/// or `None` when the text is no URL.
pub uninterp spec fn url_parse(text: Seq<char>) -> Option<Seq<char>>;

/// The serialization of the URL parsed from `url` after
/// `url::Url::set_path(path)`, or `None` when `url` is no URL.
pub uninterp spec fn url_with_path(url: Seq<char>, path: Seq<char>) -> Option<Seq<char>>;

/// `base64::encode_config(bytes, base64::URL_SAFE)` (base64 0.13): the
/// URL-safe alphabet with padding, as `base64_url_safe` spells it out. The
/// call panics when the encoded length (`encoded_size`) overflows `usize`,
/// which `requires` rules out.
#[verifier::external_body]
pub(crate) fn encode_url_safe(bytes: &[u8]) -> (r: String)
    requires
        4 * ((bytes@.len() + 2) / 3) <= usize::MAX,
    ensures
        r@ == base64_url_safe(bytes@),
{
    base64::encode_config(bytes, base64::URL_SAFE)
}

/// `url::Url::parse(text)`, the parsed URL handed back as its
/// serialization (`From<Url> for String`); `None` on a parse error.
#[verifier::external_body]
pub(crate) fn parse_url(text: &str) -> (r: Option<String>)
    ensures
        r matches Some(t) ==> url_parse(text@) == Some(t@),
        r is None ==> url_parse(text@) is None,
{
    match url::Url::parse(text) {
        Ok(u) => Some(u.into()),
        Err(_) => None,
    }
}

/// `url::Url::set_path(path)` on the URL parsed from `url`, handed back as
/// its serialization; `None` exactly when `url` does not parse. `set_path`
/// panics when the new serialization exceeds `u32::MAX` bytes, which the
/// bound in `requires` rules out: a character of `url` takes at most twelve
/// bytes once parsed, the path at most `path_bytes`, and the bound leaves
/// 65535 bytes below 2^32 for the separators that parsing adds. How the
/// path is percent-encoded is left to the name.
#[verifier::external_body]
pub(crate) fn set_url_path(url: &str, path: &str) -> (r: Option<String>)
    requires
        12 * url@.len() + path_bytes(path@) <= 0xFFFF_0000,
    ensures
        r matches Some(t) ==> url_with_path(url@, path@) == Some(t@),
        r is None ==> url_with_path(url@, path@) is None,
        r is Some <==> url_parse(url@) is Some,
{
    match url::Url::parse(url) {
        Ok(mut u) => {
            u.set_path(path);
            Some(u.into())
        },
        Err(_) => None,
    }
}

/// `TlsVecU32::<Vec<u8>>::tls_deserialize` on the front of `bytes`, the
/// vector handed back as a `Vec` and an error as its debug text: what
/// `client_list` spells out (tls_vec.rs `deserialize`; quic_vec.rs
/// `read_variable_length`, `check_min_length` and the `Vec<T>` reader; the
/// `u8` and `u32` readers, whose short reads are `EndOfStream`).
/// `tls_codec` 0.3 with its `mls` feature (which `openmls` turns on) stops on
/// a `debug_assert!` in `calculate_length` when it reads a variable-length
/// prefix whose two top bits are set; `requires` leaves out the replies on
/// which the decoder reaches such a prefix (`hits_reserved_prefix`). No
/// other input reaches a panic: the other `debug_assert!`s on lengths hold
/// for lengths read from at most four prefix bytes.
#[verifier::external_body]
pub(crate) fn decode_byte_strings(bytes: &[u8]) -> (r: Result<Vec<Vec<u8>>, String>)
    requires
        !hits_reserved_prefix(bytes@),
    ensures
        r matches Ok(v) ==> client_list(bytes@) is Ok && client_list(bytes@)->Ok_0
            == v@.map_values(|x: Vec<u8>| x@),
        r matches Err(e) ==> client_list(bytes@) is Err && client_list(bytes@)->Err_0 == e@,
{
    let mut reader = bytes;
    match TlsVecU32::<Vec<u8>>::tls_deserialize(&mut reader) {
        Ok(v) => Ok(v.into()),
        Err(e) => Err(format!("{e:?}")),
    }
}

} // verus!
