//! The calls into outside crates (and into std functions that vstd does not
//! specify). Each item states what the library relies on of the call; the
//! logic around the calls is verified in the other modules.
use vstd::prelude::*;
use aes_gcm::aead::Aead;
use aes_gcm::{AeadCore, KeyInit};
use base64::Engine;
use vstd::utf8::{decode_utf8, valid_utf8};

verus! {

/// The bytes an optional buffer holds, if any.
pub open spec fn bytes_view(o: Option<Vec<u8>>) -> Option<Seq<u8>> {
    match o {
        Some(v) => Some(v@),
        None => None,
    }
}

// ---------------------------------------------------------------------------
// base64, standard alphabet with padding
// ---------------------------------------------------------------------------

/// A character of the standard base64 alphabet.
pub open spec fn base64_char(n: int) -> char {
    if n < 26 {
        (('A' as int) + n) as char
    } else if n < 52 {
        (('a' as int) + n - 26) as char
    } else if n < 62 {
        (('0' as int) + n - 52) as char
    } else if n == 62 {
        '+'
    } else {
        '/'
    }
}

/// Standard base64 with `=` padding: each group of three bytes becomes four
/// characters, and a final group of one or two bytes is padded.
pub open spec fn base64_encode_spec(b: Seq<u8>) -> Seq<char>
    decreases b.len(),
{
    if b.len() == 0 {
        Seq::empty()
    } else if b.len() == 1 {
        seq![base64_char(b[0] as int / 4), base64_char((b[0] as int % 4) * 16), '=', '=']
    } else if b.len() == 2 {
        seq![
            base64_char(b[0] as int / 4),
            base64_char((b[0] as int % 4) * 16 + b[1] as int / 16),
            base64_char((b[1] as int % 16) * 4),
            '=',
        ]
    } else {
        seq![
            base64_char(b[0] as int / 4),
            base64_char((b[0] as int % 4) * 16 + b[1] as int / 16),
            base64_char((b[1] as int % 16) * 4 + b[2] as int / 64),
            base64_char(b[2] as int % 64),
        ] + base64_encode_spec(b.subrange(3, b.len() as int))
    }
}

/// What `BASE64_STANDARD.decode` returns for a text: the bytes, or nothing
/// when the text is not canonical padded standard base64.
pub uninterp spec fn base64_decode_spec(text: Seq<char>) -> Option<Seq<u8>>;

/// `base64::prelude::BASE64_STANDARD.encode`. Claimed: the result is the
/// padded standard encoding that `base64_encode_spec` writes out.
#[verifier::external_body]
pub(crate) fn base64_encode(bytes: &[u8]) -> (text: String)
    ensures
        text@ == base64_encode_spec(bytes@),
{
    base64::prelude::BASE64_STANDARD.encode(bytes)
}

/// `base64::prelude::BASE64_STANDARD.decode`. Claimed: the result is the
/// named decoding of the text; the standard engine requires canonical
/// padding, so a text decodes exactly when it is the encoding of some bytes,
/// and then to those bytes.
#[verifier::external_body]
pub(crate) fn base64_decode(text: &str) -> (bytes: Option<Vec<u8>>)
    ensures
        bytes_view(bytes) == base64_decode_spec(text@),
        bytes matches Some(b) ==> base64_encode_spec(b@) == text@,
        forall|b: Seq<u8>|
            #[trigger] base64_encode_spec(b) == text@ ==> bytes_view(bytes) == Some(b),
{
    match base64::prelude::BASE64_STANDARD.decode(text) {
        Ok(b) => Some(b),
        Err(_) => None,
    }
}

// ---------------------------------------------------------------------------
// AES-256-GCM
// ---------------------------------------------------------------------------

/// The longest plaintext AES-GCM encrypts, in bytes.
pub open spec fn aes_gcm_max_plaintext() -> nat {
    0x10_0000_0000
}

/// The ciphertext (with its tag) that AES-256-GCM makes of a plaintext under a
/// key and a nonce, with no associated data.
pub uninterp spec fn aes256gcm_seal(key: Seq<u8>, nonce: Seq<u8>, plaintext: Seq<u8>) -> Seq<u8>;

/// What AES-256-GCM decryption gives for a ciphertext under a key and a
/// nonce: the plaintext, or nothing when the tag does not verify.
pub uninterp spec fn aes256gcm_open(key: Seq<u8>, nonce: Seq<u8>, ciphertext: Seq<u8>) -> Option<Seq<u8>>;

/// `Aead::encrypt` of `aes_gcm::Aes256Gcm`, with the cipher built from the key
/// bytes. `Key::from_slice` and `Nonce::from_slice` panic on other lengths,
/// hence the `requires`. Claimed: encryption fails exactly when the
/// plaintext is longer than AES-GCM allows, and otherwise gives the named
/// ciphertext, which is the plaintext's length plus the 16-byte tag.
#[verifier::external_body]
pub(crate) fn aes256gcm_encrypt(key: &[u8], nonce: &[u8], plaintext: &[u8]) -> (ciphertext: Option<Vec<u8>>)
    requires
        key@.len() == 32,
        nonce@.len() == 12,
    ensures
        ciphertext is None <==> plaintext@.len() > aes_gcm_max_plaintext(),
        ciphertext matches Some(c) ==> c@ == aes256gcm_seal(key@, nonce@, plaintext@),
        ciphertext matches Some(c) ==> c@.len() == plaintext@.len() + 16,
{
    let cipher = aes_gcm::Aes256Gcm::new(aes_gcm::Key::<aes_gcm::Aes256Gcm>::from_slice(key));
    match cipher.encrypt(aes_gcm::Nonce::from_slice(nonce), plaintext) {
        Ok(c) => Some(c),
        Err(_) => None,
    }
}

/// `Aead::decrypt` of `aes_gcm::Aes256Gcm`, with the cipher built from the key
/// bytes. Claimed: the result is the named decryption, and decrypting what
/// encryption made under the same key and nonce gives the plaintext back.
#[verifier::external_body]
pub(crate) fn aes256gcm_decrypt(key: &[u8], nonce: &[u8], ciphertext: &[u8]) -> (plaintext: Option<Vec<u8>>)
    requires
        key@.len() == 32,
        nonce@.len() == 12,
    ensures
        bytes_view(plaintext) == aes256gcm_open(key@, nonce@, ciphertext@),
        forall|p: Seq<u8>|
            p.len() <= aes_gcm_max_plaintext() && #[trigger] aes256gcm_seal(key@, nonce@, p)
                == ciphertext@ ==> bytes_view(plaintext) == Some(p),
{
    let cipher = aes_gcm::Aes256Gcm::new(aes_gcm::Key::<aes_gcm::Aes256Gcm>::from_slice(key));
    match cipher.decrypt(aes_gcm::Nonce::from_slice(nonce), ciphertext) {
        Ok(p) => Some(p),
        Err(_) => None,
    }
}

/// `AeadCore::generate_nonce` of `aes_gcm::Aes256Gcm` with the operating
/// system's generator. The nonce is random: only its length is claimed.
#[verifier::external_body]
pub(crate) fn random_nonce() -> (nonce: Vec<u8>)
    ensures
        nonce@.len() == 12,
{
    aes_gcm::Aes256Gcm::generate_nonce(&mut aes_gcm::aead::OsRng).to_vec()
}

// ---------------------------------------------------------------------------
// UTF-8
// ---------------------------------------------------------------------------

/// `std::str::from_utf8`, the text copied into a `String`. Claimed, as its
/// documentation says: it succeeds exactly on valid UTF-8, and gives the
/// characters those bytes encode.
#[verifier::external_body]
pub(crate) fn utf8_text(bytes: &[u8]) -> (text: Option<String>)
    ensures
        text is Some <==> valid_utf8(bytes@),
        text matches Some(t) ==> t@ == decode_utf8(bytes@),
{
    match std::str::from_utf8(bytes) {
        Ok(t) => Some(t.to_string()),
        Err(_) => None,
    }
}

// ---------------------------------------------------------------------------
// UUIDs (the `uuid` type that `sqlx::types` re-exports)
// ---------------------------------------------------------------------------

/// The four bits of `id` at position `i`, counted from the most significant.
pub open spec fn uuid_nibble(id: u128, i: int) -> int {
    ((id as int) / pow16((31 - i) as nat)) % 16
}

pub open spec fn pow16(k: nat) -> int
    decreases k,
{
    if k == 0 {
        1
    } else {
        16 * pow16((k - 1) as nat)
    }
}

/// The hyphenated lower-case form `Uuid`'s `Display` writes: 32 hex digits
/// in groups of 8, 4, 4, 4 and 12.
pub open spec fn uuid_hyphenated(id: u128) -> Seq<char> {
    Seq::new(
        36,
        |j: int|
            if j == 8 || j == 13 || j == 18 || j == 23 {
                '-'
            } else {
                crate::http::text::hex_digit(
                    uuid_nibble(
                        id,
                        j - (if j < 8 {
                            0int
                        } else if j < 13 {
                            1int
                        } else if j < 18 {
                            2int
                        } else if j < 23 {
                            3int
                        } else {
                            4int
                        }),
                    ),
                )
            },
    )
}

/// What `Uuid::parse_str` reads from a text, as the 128-bit value of the UUID.
pub uninterp spec fn uuid_parse_spec(text: Seq<char>) -> Option<u128>;

/// `sqlx::types::Uuid::parse_str`, the result taken by `as_u128`. Claimed:
/// the result is the named parse, and the hyphenated form of a UUID parses
/// back to it.
#[verifier::external_body]
pub(crate) fn parse_uuid(text: &str) -> (id: Option<u128>)
    ensures
        id == uuid_parse_spec(text@),
        forall|v: u128| #[trigger] uuid_hyphenated(v) == text@ ==> id == Some(v),
{
    match sqlx::types::Uuid::parse_str(text) {
        Ok(u) => Some(u.as_u128()),
        Err(_) => None,
    }
}

/// `Uuid::to_string` of `Uuid::from_u128(id)`. Claimed: the hyphenated
/// lower-case form.
#[verifier::external_body]
pub(crate) fn uuid_text(id: u128) -> (text: String)
    ensures
        text@ == uuid_hyphenated(id),
{
    sqlx::types::Uuid::from_u128(id).to_string()
}

// ---------------------------------------------------------------------------
// Emoji removal
// ---------------------------------------------------------------------------

/// The characters `demoji` removes: its regular expression's class of
/// emoticons, pictographs, transport symbols, flags, dingbats and the
/// enclosed and symbol blocks up to U+1F251.
pub open spec fn is_emoji(c: char) -> bool {
    let u = c as int;
    ||| 0x1F600 <= u <= 0x1F64F
    ||| 0x1F300 <= u <= 0x1F5FF
    ||| 0x1F680 <= u <= 0x1F6FF
    ||| 0x1F1E0 <= u <= 0x1F1FF
    ||| 0x2702 <= u <= 0x27B0
    ||| 0x24C2 <= u <= 0x1F251
}

/// `demoji::demoji`. Claimed, as its source shows (a regular expression
/// replacing every run of those characters by nothing): the text without
/// the characters of `is_emoji`.
#[verifier::external_body]
pub(crate) fn demoji(text: &str) -> (clean: String)
    ensures
        clean@ == text@.filter(|c: char| !is_emoji(c)),
{
    demoji::demoji(text)
}

// ---------------------------------------------------------------------------
// QR code images
// ---------------------------------------------------------------------------

/// The error-correction levels of a QR code.
#[derive(Debug, Clone, Copy, PartialEq, Eq, Structural)]
pub enum QrLevel {
    Low,
    Medium,
    Quartile,
    High,
}

/// The PNG image, `size` pixels square, of the QR code that encodes `data`
/// at the error-correction `level`; nothing when the data does not fit a QR
/// code or the image is too small for it.
pub uninterp spec fn qr_png_spec(data: Seq<u8>, level: QrLevel, size: nat) -> Option<Seq<u8>>;

/// `qrcode_generator::to_png_to_vec`. Claimed: the result is the named image.
#[verifier::external_body]
pub(crate) fn qr_png(data: &[u8], level: QrLevel, size: usize) -> (image: Option<Vec<u8>>)
    ensures
        bytes_view(image) == qr_png_spec(data@, level, size as nat),
{
    let ecc = match level {
        QrLevel::Low => qrcode_generator::QrCodeEcc::Low,
        QrLevel::Medium => qrcode_generator::QrCodeEcc::Medium,
        QrLevel::Quartile => qrcode_generator::QrCodeEcc::Quartile,
        QrLevel::High => qrcode_generator::QrCodeEcc::High,
    };
    match qrcode_generator::to_png_to_vec(data, ecc, size) {
        Ok(png) => Some(png),
        Err(_) => None,
    }
}

// ---------------------------------------------------------------------------
// PDF page counts
// ---------------------------------------------------------------------------

/// The number of pages lopdf finds in a PDF file; nothing when the bytes do
/// not load as a PDF.
pub uninterp spec fn pdf_page_count_spec(bytes: Seq<u8>) -> Option<nat>;

/// `lopdf::Document::load_mem`, then the length of `page_iter`. Claimed: the
/// result is the named count.
#[verifier::external_body]
pub(crate) fn pdf_page_count(bytes: &[u8]) -> (pages: Option<usize>)
    ensures
        pages is Some <==> pdf_page_count_spec(bytes@) is Some,
        pages matches Some(n) ==> pdf_page_count_spec(bytes@) == Some(n as nat),
{
    match lopdf::Document::load_mem(bytes) {
        Ok(document) => Some(document.page_iter().count()),
        Err(_) => None,
    }
}

} // verus!
