use vstd::prelude::*;

use hmac::{Mac, NewMac};
use vstd::utf8::encode_utf8;

verus! {

/// The account's API key, sent with every private request.
pub const API_KEY: &'static str = "APIKEY";

/// The account's API secret, the key of every request signature.
pub const API_SECRET: &'static str = "SQKEY";

/// Appends a character, as `String::push` documents.
pub assume_specification[ String::push ](s: &mut String, ch: char)
    ensures
        final(s)@ == old(s)@.push(ch),
;

/// The HMAC-SHA256 tag of `message` under `key`.
pub uninterp spec fn hmac_sha256(key: Seq<u8>, message: Seq<u8>) -> Seq<u8>;

/// Calls `hmac::Hmac::<sha2::Sha256>`: `new_varkey`, `update` and
/// `finalize`. The tag is named `hmac_sha256(key, message)` and has the
/// 32 bytes of a SHA-256 output; `new_varkey` accepts keys of any length.
#[verifier::external_body]
fn hmac_sha256_tag(key: &[u8], message: &[u8]) -> (tag: Vec<u8>)
    ensures
        tag@ == hmac_sha256(key@, message@),
        tag@.len() == 32,
{
    let mut mac = hmac::Hmac::<sha2::Sha256>::new_varkey(key).expect("HMAC can take key of any size");
    mac.update(message);
    mac.finalize().into_bytes().to_vec()
}

/// The lowercase hexadecimal digit for `n` (below 16).
pub open spec fn hex_digit(n: u8) -> char {
    if n < 10 {
        (48 + n) as char
    } else {
        (87 + n) as char
    }
}

/// Two lowercase hexadecimal digits per byte, high nibble first.
pub open spec fn hex_lower(bytes: Seq<u8>) -> Seq<char>
    decreases bytes.len(),
{
    if bytes.len() == 0 {
        Seq::empty()
    } else {
        seq![hex_digit(bytes[0] / 16), hex_digit(bytes[0] % 16)] + hex_lower(bytes.drop_first())
    }
}

/// Calls `hex::encode`, which writes each byte as two lowercase
/// hexadecimal digits, high nibble first.
#[verifier::external_body]
fn hex_encode(data: &[u8]) -> (r: String)
    ensures
        r@ == hex_lower(data@),
{
    hex::encode(data)
}

/// The decimal digit character for `d` (below 10).
pub open spec fn digit_char(d: nat) -> char {
    (48 + d) as char
}

/// The decimal notation of `n`, without leading zeros.
pub open spec fn decimal(n: nat) -> Seq<char>
    decreases n,
{
    if n < 10 {
        seq![digit_char(n)]
    } else {
        decimal(n / 10).push(digit_char(n % 10))
    }
}

/// The decimal notation of `n`.
pub fn decimal_string(n: u64) -> (r: String)
    ensures
        r@ == decimal(n as nat),
    decreases n,
{
    let d: u8 = (n % 10) as u8;
    let c: char = (48u8 + d) as char;
    if n < 10 {
        let mut s = String::new();
        s.push(c);
        assert(s@ =~= seq![digit_char(n as nat)]);
        s
    } else {
        let mut s = decimal_string(n / 10);
        s.push(c);
        s
    }
}

/// Whether every character may stand in an HTTP header value as it is:
/// printable ASCII, from space to tilde.
pub open spec fn header_safe(s: Seq<char>) -> bool {
    forall|i: int| 0 <= i < s.len() ==> ' ' <= #[trigger] s[i] <= '~'
}

/// The text that a request signature covers: the timestamp, the API key and
/// the request body, one after the other.
pub open spec fn signed_text(timestamp: Seq<char>, body: Seq<char>) -> Seq<char> {
    timestamp + API_KEY@ + body
}

/// The signature of a request: the lowercase hex of the HMAC-SHA256 tag,
/// under the API secret, of the UTF-8 bytes of the signed text.
pub open spec fn signature(timestamp: Seq<char>, body: Seq<char>) -> Seq<char> {
    hex_lower(hmac_sha256(encode_utf8(API_SECRET@), encode_utf8(signed_text(timestamp, body))))
}

/// Hex text is twice as long as its bytes and holds only the characters
/// `0`-`9` and `a`-`f`, all of which may stand in a header value.
pub proof fn law_hex_is_header_safe(bytes: Seq<u8>)
    ensures
        hex_lower(bytes).len() == 2 * bytes.len(),
        header_safe(hex_lower(bytes)),
        forall|i: int| 0 <= i < hex_lower(bytes).len() ==>
            ('0' <= #[trigger] hex_lower(bytes)[i] <= '9' || 'a' <= hex_lower(bytes)[i] <= 'f'),
    decreases bytes.len(),
{
    if bytes.len() > 0 {
        law_hex_is_header_safe(bytes.drop_first());
        let head = seq![hex_digit(bytes[0] / 16), hex_digit(bytes[0] % 16)];
        let tail = hex_lower(bytes.drop_first());
        assert(hex_lower(bytes) == head + tail);
        assert forall|i: int| 0 <= i < hex_lower(bytes).len() implies
            ('0' <= #[trigger] hex_lower(bytes)[i] <= '9' || 'a' <= hex_lower(bytes)[i] <= 'f') by {
            if i >= 2 {
                assert(hex_lower(bytes)[i] == tail[i - 2]);
            }
        }
    }
}

/// Decimal text holds only the digits `0`-`9`, all of which may stand in a
/// header value, and is never empty.
pub proof fn law_decimal_is_header_safe(n: nat)
    ensures
        decimal(n).len() >= 1,
        header_safe(decimal(n)),
        forall|i: int| 0 <= i < decimal(n).len() ==> '0' <= #[trigger] decimal(n)[i] <= '9',
    decreases n,
{
    if n >= 10 {
        law_decimal_is_header_safe(n / 10);
        let prev = decimal(n / 10);
        assert forall|i: int| 0 <= i < decimal(n).len() implies '0' <= #[trigger] decimal(n)[i] <= '9' by {
            if i < prev.len() {
                assert(decimal(n)[i] == prev[i]);
            }
        }
    }
}

/// A request body together with what the exchange needs to authenticate
/// it: the API key, the timestamp and the signature, each sent in a header.
pub struct SignedRequest {
    pub api_key: String,
    pub timestamp: String,
    pub sign: String,
    pub body: String,
}

/// `r` carries `body` signed for the moment `timestamp_ms`.
pub open spec fn is_signed_request(r: SignedRequest, timestamp_ms: u64, body: Seq<char>) -> bool {
    &&& r.api_key@ == API_KEY@
    &&& r.timestamp@ == decimal(timestamp_ms as nat)
    &&& r.body@ == body
    &&& r.sign@ == signature(decimal(timestamp_ms as nat), body)
}

/// Header carrying the API key.
pub const HEADER_API_KEY: &'static str = "X-BAPI-API-KEY";
/// Header carrying the request timestamp.
pub const HEADER_TIMESTAMP: &'static str = "X-BAPI-TIMESTAMP";
/// Header carrying the request signature.
pub const HEADER_SIGN: &'static str = "X-BAPI-SIGN";

/// Signs `body` for the moment `timestamp_ms` (milliseconds since the Unix
/// epoch).
pub fn sign_request(timestamp_ms: u64, body: String) -> (r: SignedRequest)
    ensures
        is_signed_request(r, timestamp_ms, body@),
        r.sign@.len() == 64,
        header_safe(r.api_key@),
        header_safe(r.timestamp@),
        header_safe(r.sign@),
{
    let timestamp = decimal_string(timestamp_ms);
    let mut text = timestamp.clone();
    text.append(API_KEY);
    text.append(body.as_str());
    let tag = hmac_sha256_tag(API_SECRET.as_bytes(), text.as_str().as_bytes());
    let sign = hex_encode(tag.as_slice());
    proof {
        law_hex_is_header_safe(tag@);
        law_decimal_is_header_safe(timestamp_ms as nat);
        reveal_strlit("APIKEY");
    }
    SignedRequest { api_key: API_KEY.to_owned(), timestamp, sign, body }
}

impl SignedRequest {
    /// The authentication headers, as (name, value) pairs.
    pub fn headers(&self) -> (r: Vec<(String, String)>)
        ensures
            r@.len() == 3,
            r@[0].0@ == HEADER_API_KEY@ && r@[0].1@ == self.api_key@,
            r@[1].0@ == HEADER_TIMESTAMP@ && r@[1].1@ == self.timestamp@,
            r@[2].0@ == HEADER_SIGN@ && r@[2].1@ == self.sign@,
    {
        let mut r: Vec<(String, String)> = Vec::new();
        r.push((HEADER_API_KEY.to_owned(), self.api_key.clone()));
        r.push((HEADER_TIMESTAMP.to_owned(), self.timestamp.clone()));
        r.push((HEADER_SIGN.to_owned(), self.sign.clone()));
        r
    }
}

} // verus!

verus! {

/// A request's signature is the lowercase hex of the HMAC-SHA256 tag, under
/// the secret `SQKEY`, of the timestamp, the key `APIKEY` and the body, one
/// after the other.
pub proof fn law_signature_covers_timestamp_key_and_body(timestamp: Seq<char>, body: Seq<char>)
    ensures
        signature(timestamp, body) == hex_lower(hmac_sha256(encode_utf8("SQKEY"@), encode_utf8(timestamp + "APIKEY"@ + body))),
{
}

/// The value of a text of decimal digits.
pub open spec fn digits_value(s: Seq<char>) -> int
    decreases s.len(),
{
    if s.len() == 0 {
        0
    } else {
        digits_value(s.drop_last()) * 10 + (s.last() as int - 48)
    }
}

/// The timestamp text reads back as the number it was made from, and has
/// no leading zero.
pub proof fn law_decimal_reads_back(n: nat)
    ensures
        digits_value(decimal(n)) == n,
        decimal(n).len() > 1 ==> decimal(n)[0] != '0',
    decreases n,
{
    if n >= 10 {
        law_decimal_reads_back(n / 10);
        law_decimal_is_header_safe(n / 10);
        let prev = decimal(n / 10);
        assert(decimal(n).drop_last() =~= prev);
        assert(decimal(n).last() == digit_char(n % 10));
        assert(digit_char(n % 10) as int == 48 + n % 10);
        assert((n / 10) * 10 + n % 10 == n) by (nonlinear_arith);
        assert(digits_value(decimal(n)) == digits_value(prev) * 10 + (decimal(n).last() as int - 48));
        assert(decimal(n)[0] == prev[0]);
        if n / 10 >= 10 {
            law_decimal_is_header_safe((n / 10) / 10);
            assert(prev.len() >= 2);
        }
        if prev.len() == 1 {
            assert(n / 10 < 10);
            assert(prev[0] == digit_char(n / 10));
            assert(digit_char(n / 10) as int == 48 + n / 10);
            assert(n / 10 >= 1);
        }
    } else {
        assert(digit_char(n) as int == 48 + n);
        assert(decimal(n).drop_last() =~= Seq::<char>::empty());
        assert(digits_value(Seq::<char>::empty()) == 0);
        assert(digits_value(decimal(n)) == digits_value(decimal(n).drop_last()) * 10 + (decimal(n).last() as int - 48));
    }
}

/// The value of a lowercase hexadecimal digit.
pub open spec fn hex_value(c: char) -> int {
    if '0' <= c <= '9' {
        c as int - 48
    } else {
        c as int - 87
    }
}

/// Hex text reads back as its bytes: digits `2i` and `2i + 1` are the high
/// and low nibble of byte `i`.
pub proof fn law_hex_reads_back(bytes: Seq<u8>)
    ensures
        hex_lower(bytes).len() == 2 * bytes.len(),
        forall|i: int| 0 <= i < bytes.len() ==>
            hex_value(hex_lower(bytes)[2 * i]) * 16 + hex_value(hex_lower(bytes)[2 * i + 1]) == #[trigger] bytes[i] as int,
    decreases bytes.len(),
{
    law_hex_is_header_safe(bytes);
    if bytes.len() > 0 {
        let tail = bytes.drop_first();
        law_hex_reads_back(tail);
        assert forall|i: int| 0 <= i < bytes.len() implies
            hex_value(hex_lower(bytes)[2 * i]) * 16 + hex_value(hex_lower(bytes)[2 * i + 1]) == #[trigger] bytes[i] as int by {
            if i > 0 {
                assert(bytes[i] == tail[i - 1]);
                assert(hex_lower(bytes)[2 * i] == hex_lower(tail)[2 * (i - 1)]);
                assert(hex_lower(bytes)[2 * i + 1] == hex_lower(tail)[2 * (i - 1) + 1]);
            }
        }
    }
}

} // verus!

verus! {

/// A signed request carries the key `APIKEY`, the decimal timestamp, the
/// body unchanged, and the signature over exactly these.
pub proof fn law_signed_request_fields(r: SignedRequest, timestamp_ms: u64, body: Seq<char>)
    requires
        is_signed_request(r, timestamp_ms, body),
    ensures
        r.api_key@ == "APIKEY"@,
        digits_value(r.timestamp@) == timestamp_ms,
        r.body@ == body,
        r.sign@ == hex_lower(hmac_sha256(encode_utf8("SQKEY"@), encode_utf8(r.timestamp@ + "APIKEY"@ + body))),
{
    law_decimal_reads_back(timestamp_ms as nat);
}

} // verus!
