//! The QR codes handed to a customer once an order is paid: the order id and
//! the time of issue, sealed with AES-256-GCM under the service key and
//! written as JSON, and the PNG image that carries that text.
use crate::http::error::{Error, Failure};
use crate::http::external::{
    aes256gcm_decrypt, aes256gcm_encrypt, aes256gcm_open, aes256gcm_seal, aes_gcm_max_plaintext,
    base64_decode, base64_decode_spec, base64_encode, base64_encode_spec, qr_png, qr_png_spec,
    random_nonce, utf8_text, QrLevel,
};
use crate::http::text::{decimal, json_string, push_decimal, push_json_string};
use vstd::prelude::*;
use vstd::utf8::{decode_utf8, encode_utf8, valid_utf8};

verus! {

broadcast use {vstd::utf8::encode_utf8_valid_utf8, vstd::utf8::encode_utf8_decode_utf8};

/// A moment as seconds and nanoseconds since the Unix epoch.
#[derive(Debug, Clone, Copy, PartialEq, Eq, Structural)]
pub struct Timestamp {
    pub secs: u64,
    pub nanos: u32,
}

impl Timestamp {
    /// The nanoseconds are below one second.
    pub open spec fn valid(self) -> bool {
        self.nanos < 1_000_000_000
    }

    /// The moment in nanoseconds since the epoch.
    pub open spec fn total_nanos(self) -> int {
        self.secs * 1_000_000_000 + self.nanos
    }
}

/// What a QR code holds once decrypted: when it was issued and for which order.
pub struct QRPayloadData {
    pub created_at: Timestamp,
    pub order_id: String,
}

/// What a QR code shows: the base64 ciphertext and the base64 nonce.
pub struct QRPayload {
    pub hash: String,
    pub nonce: String,
}

/// The AES-256 key the service seals QR payloads with.
pub struct AesKey {
    bytes: Vec<u8>,
}

impl View for AesKey {
    type V = Seq<u8>;

    closed spec fn view(&self) -> Seq<u8> {
        self.bytes@
    }
}

impl AesKey {
    #[verifier::type_invariant]
    spec fn holds_256_bits(self) -> bool {
        self.bytes@.len() == 32
    }

    /// The key made of 32 bytes; nothing for another length.
    pub fn from_bytes(bytes: Vec<u8>) -> (key: Option<AesKey>)
        ensures
            key is Some <==> bytes@.len() == 32,
            key matches Some(k) ==> k@ == bytes@,
    {
        if bytes.len() == 32 {
            Some(AesKey { bytes })
        } else {
            None
        }
    }

    fn as_slice(&self) -> (bytes: &[u8])
        ensures
            bytes@ == self@,
            bytes@.len() == 32,
    {
        proof {
            use_type_invariant(self);
        }
        self.bytes.as_slice()
    }
}

/// The JSON text of a payload, as serde writes the struct: fields in
/// declaration order, the time as seconds and nanoseconds since the epoch.
pub open spec fn payload_data_json(data: QRPayloadData) -> Seq<char> {
    "{\"created_at\":{\"secs_since_epoch\":"@ + decimal(data.created_at.secs as nat)
        + ",\"nanos_since_epoch\":"@ + decimal(data.created_at.nanos as nat) + "},\"order_id\":"@
        + json_string(data.order_id@) + "}"@
}

impl QRPayloadData {
    /// Writes the payload as JSON.
    pub fn to_json(&self) -> (text: String)
        ensures
            text@ == payload_data_json(*self),
    {
        let mut out = String::from_str("{\"created_at\":{\"secs_since_epoch\":");
        push_decimal(&mut out, self.created_at.secs);
        out.append(",\"nanos_since_epoch\":");
        push_decimal(&mut out, self.created_at.nanos as u64);
        out.append("},\"order_id\":");
        push_json_string(&mut out, self.order_id.as_str());
        out.append("}");
        out
    }
}

/// The JSON text of what a QR code shows.
pub open spec fn qr_payload_json(hash: Seq<char>, nonce: Seq<char>) -> Seq<char> {
    "{\"hash\":"@ + json_string(hash) + ",\"nonce\":"@ + json_string(nonce) + "}"@
}

impl QRPayload {
    /// Writes the payload as JSON, fields in declaration order.
    pub fn to_json(&self) -> (text: String)
        ensures
            text@ == qr_payload_json(self.hash@, self.nonce@),
    {
        let mut out = String::from_str("{\"hash\":");
        push_json_string(&mut out, self.hash.as_str());
        out.append(",\"nonce\":");
        push_json_string(&mut out, self.nonce.as_str());
        out.append("}");
        out
    }
}

/// `hash` and `nonce` are what sealing `text` under `key` with some 12-byte
/// nonce shows: the base64 of the nonce and of the ciphertext.
pub open spec fn sealed_fields(key: Seq<u8>, hash: Seq<char>, nonce_text: Seq<char>, text: Seq<char>) -> bool {
    exists|nonce: Seq<u8>|
        {
            &&& nonce.len() == 12
            &&& encode_utf8(text).len() <= aes_gcm_max_plaintext()
            &&& #[trigger] base64_encode_spec(nonce) == nonce_text
            &&& hash == base64_encode_spec(aes256gcm_seal(key, nonce, encode_utf8(text)))
        }
}

/// `payload` is what sealing `text` under `key` with some 12-byte nonce shows.
pub open spec fn is_sealed(key: Seq<u8>, payload: QRPayload, text: Seq<char>) -> bool {
    sealed_fields(key, payload.hash@, payload.nonce@, text)
}

/// Seals `text` under `key` with `nonce`: the ciphertext and the nonce,
/// each in base64. Fails only when the text is longer than AES-GCM allows.
pub fn seal_order_payload(text: &str, key: &AesKey, nonce: &[u8]) -> (result: Result<QRPayload, Error>)
    requires
        nonce@.len() == 12,
    ensures
        result is Err <==> encode_utf8(text@).len() > aes_gcm_max_plaintext(),
        result matches Err(e) ==> e == Error::Internal(Failure::EncryptionFailed),
        result matches Ok(p) ==> {
            &&& p.hash@ == base64_encode_spec(aes256gcm_seal(key@, nonce@, encode_utf8(text@)))
            &&& p.nonce@ == base64_encode_spec(nonce@)
            &&& aes256gcm_seal(key@, nonce@, encode_utf8(text@)).len() == encode_utf8(text@).len() + 16
        },
        result matches Ok(p) ==> is_sealed(key@, p, text@),
{
    let ciphertext = match aes256gcm_encrypt(key.as_slice(), nonce, text.as_bytes()) {
        Some(c) => c,
        None => return Err(Error::Internal(Failure::EncryptionFailed)),
    };
    let payload = QRPayload { hash: base64_encode(ciphertext.as_slice()), nonce: base64_encode(nonce) };
    proof {
        assert(base64_encode_spec(nonce@) == payload.nonce@);
    }
    Ok(payload)
}

/// The text a QR code shows for an order issued at `now`: the order id and
/// the time as JSON, sealed under `key` with a fresh random nonce, as JSON.
/// The nonce is random: what holds is that some 12-byte nonce gives the
/// text, whose ciphertext is the plaintext's length plus the 16-byte tag,
/// and whose two fields are what `decrypt_order` opens back to the plaintext.
pub fn encrypt_order(order_id: String, now: Timestamp, key: &AesKey) -> (result: Result<String, Error>)
    ensures
        ({
            let plain = payload_data_json(QRPayloadData { created_at: now, order_id });
            &&& result is Err <==> encode_utf8(plain).len() > aes_gcm_max_plaintext()
            &&& result matches Err(e) ==> e == Error::Internal(Failure::EncryptionFailed)
            &&& result matches Ok(s) ==> exists|nonce: Seq<u8>|
                #![trigger base64_encode_spec(nonce)]
                nonce.len() == 12 && s@ == qr_payload_json(
                    base64_encode_spec(aes256gcm_seal(key@, nonce, encode_utf8(plain))),
                    base64_encode_spec(nonce),
                ) && aes256gcm_seal(key@, nonce, encode_utf8(plain)).len() == encode_utf8(plain).len() + 16
            &&& result matches Ok(s) ==> exists|hash: Seq<char>, nonce_text: Seq<char>|
                #![trigger qr_payload_json(hash, nonce_text)]
                s@ == qr_payload_json(hash, nonce_text) && sealed_fields(key@, hash, nonce_text, plain)
        }),
{
    let payload_data = QRPayloadData { created_at: now, order_id };
    let plain = payload_data.to_json();
    let nonce = random_nonce();
    let sealed = seal_order_payload(plain.as_str(), key, nonce.as_slice());
    match sealed {
        Ok(p) => {
            let text = p.to_json();
            proof {
                assert(base64_encode_spec(nonce@) == p.nonce@);
                assert(text@ == qr_payload_json(p.hash@, p.nonce@));
            }
            Ok(text)
        },
        Err(e) => Err(e),
    }
}

/// The text or the error, the text taken by its characters.
pub open spec fn text_result(r: Result<String, Error>) -> Result<Seq<char>, Error> {
    match r {
        Ok(s) => Ok(s@),
        Err(e) => Err(e),
    }
}

/// What opening a QR payload under `key` gives: the nonce and the ciphertext
/// decoded from base64, the ciphertext decrypted, the plaintext read as UTF-8.
pub open spec fn decrypt_order_spec(key: Seq<u8>, payload: QRPayload) -> Result<Seq<char>, Error> {
    match base64_decode_spec(payload.nonce@) {
        None => Err(Error::Internal(Failure::NonceNotDecoded)),
        Some(nonce) => match base64_decode_spec(payload.hash@) {
            None => Err(Error::Internal(Failure::HashNotDecoded)),
            Some(hash) => match aes256gcm_open(key, nonce, hash) {
                None => Err(Error::Internal(Failure::DecryptionFailed)),
                Some(plain) => if valid_utf8(plain) {
                    Ok(decode_utf8(plain))
                } else {
                    Err(Error::Internal(Failure::NotUtf8))
                },
            },
        },
    }
}

/// Opening a payload whose nonce and ciphertext both decode needs a 12-byte
/// nonce; another length makes `Nonce::from_slice` panic.
pub open spec fn nonce_fits(payload: QRPayload) -> bool {
    match (base64_decode_spec(payload.nonce@), base64_decode_spec(payload.hash@)) {
        (Some(nonce), Some(_)) => nonce.len() == 12,
        _ => true,
    }
}

/// Opens a QR payload under `key`. A payload sealed from some text opens to
/// that text.
pub fn decrypt_order(key: &AesKey, payload: &QRPayload) -> (result: Result<String, Error>)
    requires
        nonce_fits(*payload),
    ensures
        text_result(result) == decrypt_order_spec(key@, *payload),
        forall|text: Seq<char>| #[trigger] is_sealed(key@, *payload, text) ==> text_result(result) == Ok::<Seq<char>, Error>(text),
{
    let nonce = match base64_decode(payload.nonce.as_str()) {
        Some(n) => n,
        None => return Err(Error::Internal(Failure::NonceNotDecoded)),
    };
    let hash = match base64_decode(payload.hash.as_str()) {
        Some(h) => h,
        None => return Err(Error::Internal(Failure::HashNotDecoded)),
    };
    let key_bytes = key.as_slice();
    let plain = match aes256gcm_decrypt(key_bytes, nonce.as_slice(), hash.as_slice()) {
        Some(p) => p,
        None => {
            proof {
                assert forall|text: Seq<char>| #[trigger] is_sealed(key@, *payload, text) implies false by {
                    let n = choose|n: Seq<u8>|
                        #![trigger base64_encode_spec(n)]
                        {
                            &&& n.len() == 12
                            &&& encode_utf8(text).len() <= aes_gcm_max_plaintext()
                            &&& base64_encode_spec(n) == payload.nonce@
                            &&& payload.hash@ == base64_encode_spec(aes256gcm_seal(key@, n, encode_utf8(text)))
                        };
                    assert(nonce@ == n);
                    assert(hash@ == aes256gcm_seal(key@, n, encode_utf8(text)));
                }
            }
            return Err(Error::Internal(Failure::DecryptionFailed));
        },
    };
    proof {
        assert forall|text: Seq<char>| #[trigger] is_sealed(key@, *payload, text) implies plain@ == encode_utf8(text) by {
            let n = choose|n: Seq<u8>|
                #![trigger base64_encode_spec(n)]
                {
                    &&& n.len() == 12
                    &&& encode_utf8(text).len() <= aes_gcm_max_plaintext()
                    &&& base64_encode_spec(n) == payload.nonce@
                    &&& payload.hash@ == base64_encode_spec(aes256gcm_seal(key@, n, encode_utf8(text)))
                };
            assert(nonce@ == n);
            assert(hash@ == aes256gcm_seal(key@, n, encode_utf8(text)));
        }
    }
    match utf8_text(plain.as_slice()) {
        Some(t) => Ok(t),
        None => Err(Error::Internal(Failure::NotUtf8)),
    }
}

/// Opens a QR payload as `decrypt_order` does, and answers nothing where the
/// nonce decodes to a length that `Nonce::from_slice` would refuse.
pub fn checked_decrypt_order(key: &AesKey, payload: &QRPayload) -> (result: Option<Result<String, Error>>)
    ensures
        result is None <==> !nonce_fits(*payload),
        result matches Some(r) ==> text_result(r) == decrypt_order_spec(key@, *payload),
        forall|text: Seq<char>| #[trigger] is_sealed(key@, *payload, text) ==> (result matches Some(r) && text_result(r) == Ok::<Seq<char>, Error>(text)),
{
    let nonce = base64_decode(payload.nonce.as_str());
    let hash = base64_decode(payload.hash.as_str());
    match (nonce, hash) {
        (Some(n), Some(_)) => {
            if n.len() != 12 {
                proof {
                    assert forall|text: Seq<char>| #[trigger] is_sealed(key@, *payload, text) implies false by {
                        let w = choose|w: Seq<u8>|
                            #![trigger base64_encode_spec(w)]
                            {
                                &&& w.len() == 12
                                &&& encode_utf8(text).len() <= aes_gcm_max_plaintext()
                                &&& base64_encode_spec(w) == payload.nonce@
                                &&& payload.hash@ == base64_encode_spec(aes256gcm_seal(key@, w, encode_utf8(text)))
                            };
                        assert(n@ == w);
                    }
                }
                return None;
            }
        },
        _ => {},
    }
    Some(decrypt_order(key, payload))
}

/// The PNG image of the QR code for `hash`: low error correction, 1024
/// pixels square; `NotFound` when no such image can be made.
pub fn generate_qrcode(hash: String) -> (result: Result<Vec<u8>, Error>)
    ensures
        match qr_png_spec(encode_utf8(hash@), QrLevel::Low, 1024) {
            Some(image) => result matches Ok(r) && r@ == image,
            None => result == Err::<Vec<u8>, Error>(Error::NotFound),
        },
{
    match qr_png(hash.as_str().as_bytes(), QrLevel::Low, 1024) {
        Some(image) => Ok(image),
        None => Err(Error::NotFound),
    }
}

/// The QR code issued for a paid order: the sealed text `encrypt_order`
/// makes for `order_ref` at `now`, and the PNG image that shows it.
pub fn issue_qr_code(order_ref: String, now: Timestamp, key: &AesKey) -> (result: Result<(String, Vec<u8>), Error>)
    ensures
        ({
            let plain = payload_data_json(QRPayloadData { created_at: now, order_id: order_ref });
            &&& encode_utf8(plain).len() > aes_gcm_max_plaintext() ==> result == Err::<(String, Vec<u8>), Error>(
                Error::Internal(Failure::EncryptionFailed),
            )
            &&& result matches Ok((text, image)) ==> {
                &&& exists|nonce: Seq<u8>|
                    #![trigger base64_encode_spec(nonce)]
                    nonce.len() == 12 && text@ == qr_payload_json(
                        base64_encode_spec(aes256gcm_seal(key@, nonce, encode_utf8(plain))),
                        base64_encode_spec(nonce),
                    )
                &&& qr_png_spec(encode_utf8(text@), QrLevel::Low, 1024) == Some(image@)
            }
            &&& result matches Err(e) ==> (e == Error::Internal(Failure::EncryptionFailed) || e == Error::NotFound)
            &&& (result matches Err(e) && e == Error::Internal(Failure::EncryptionFailed)) ==> encode_utf8(plain).len()
                > aes_gcm_max_plaintext()
            &&& (result matches Err(e) && e == Error::NotFound) ==> exists|n: Seq<u8>|
                #![trigger base64_encode_spec(n)]
                n.len() == 12 && qr_png_spec(
                    encode_utf8(
                        qr_payload_json(
                            base64_encode_spec(aes256gcm_seal(key@, n, encode_utf8(plain))),
                            base64_encode_spec(n),
                        ),
                    ),
                    QrLevel::Low,
                    1024,
                ) is None
        }),
{
    let text = encrypt_order(order_ref, now, key)?;
    let image = generate_qrcode(text.clone())?;
    Ok((text, image))
}

/// A payload showing the base64 of a 12-byte nonce and of the ciphertext
/// sealed from `text` under `key` with that nonce opens to `text`: what
/// `encrypt_order` issues is what `decrypt_order` accepts.
pub proof fn lemma_issued_payload_is_sealed(key: Seq<u8>, nonce: Seq<u8>, text: Seq<char>, payload: QRPayload)
    requires
        nonce.len() == 12,
        encode_utf8(text).len() <= aes_gcm_max_plaintext(),
        payload.nonce@ == base64_encode_spec(nonce),
        payload.hash@ == base64_encode_spec(aes256gcm_seal(key, nonce, encode_utf8(text))),
    ensures
        is_sealed(key, payload, text),
{
    assert(base64_encode_spec(nonce) == payload.nonce@);
}

/// The fields `encrypt_order` writes into its text, once read into a
/// payload, are a payload `decrypt_order` opens back to the plaintext.
pub proof fn lemma_encrypted_fields_open(
    key: Seq<u8>,
    hash: Seq<char>,
    nonce_text: Seq<char>,
    text: Seq<char>,
    payload: QRPayload,
)
    requires
        sealed_fields(key, hash, nonce_text, text),
        payload.hash@ == hash,
        payload.nonce@ == nonce_text,
    ensures
        is_sealed(key, payload, text),
{
}

} // verus!
