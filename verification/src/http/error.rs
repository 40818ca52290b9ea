use vstd::prelude::*;

verus! {

/// Why a request was refused as unprocessable.
#[derive(Debug, Clone, Copy, PartialEq, Eq, Structural)]
pub enum Rejection {
    /// The webhook subscription could not be verified.
    WebhookNotVerified,
    /// A payment notification did not have the expected shape.
    InvalidRequest,
    /// A WhatsApp notification did not have the expected shape.
    NotDeserializable,
    /// The uploaded document is not a PDF.
    DocumentNotPdf,
    /// The WhatsApp API could not be reached.
    MessageNotSent,
}

/// Why a request failed inside the service.
#[derive(Debug, Clone, Copy, PartialEq, Eq, Structural)]
pub enum Failure {
    /// The order id in a collection path is not a UUID.
    InvalidOrderId,
    /// The order id inside a QR payload is not a UUID.
    OrderIdNotParsed,
    /// The QR code claims to be issued after the current time.
    TimesNotComparable,
    /// The order row lacks the copies, colour or sides.
    MissingOrderDetails,
    /// A QR payload could not be serialized.
    PayloadNotSerializable,
    /// The QR payload could not be encrypted.
    EncryptionFailed,
    /// The scanned text is not a QR payload.
    InvalidQrFormat,
    /// The nonce of a QR payload is not base64.
    NonceNotDecoded,
    /// The ciphertext of a QR payload is not base64.
    HashNotDecoded,
    /// The ciphertext does not open under the service key.
    DecryptionFailed,
    /// The decrypted payload is not UTF-8.
    NotUtf8,
    /// The decrypted payload is not a JSON QR payload.
    QrPayloadNotParsed,
    /// No catalogue entry matches the chosen print options.
    ItemNotFound,
    /// A notification has no entry or no change.
    InvalidEventNotification,
    /// The reply of an order form could not be read.
    ReplyNotDeserializable,
    /// The database refused or failed a query.
    Database,
    /// The QR image could not be attached to an upload.
    PartNotCreated,
    /// The QR image could not be uploaded.
    UploadFailed,
    /// The answer to an upload could not be read.
    UploadResponseNotRead,
}

/// The errors a request can end with.
#[derive(Debug, Clone, Copy, PartialEq, Eq, Structural)]
pub enum Error {
    NotFound,
    UnprocessableEntity(Rejection),
    Internal(Failure),
}

/// The field and the message a rejection is reported under.
pub open spec fn rejection_text(r: Rejection) -> (Seq<char>, Seq<char>) {
    match r {
        Rejection::WebhookNotVerified => ("webhook"@, "Cannot verify "@),
        Rejection::InvalidRequest => ("Deserialize"@, "Invalid Request"@),
        Rejection::NotDeserializable => ("deserialize"@, "could not deserialize"@),
        Rejection::DocumentNotPdf => ("file type"@, "document uploaded is not pdf."@),
        Rejection::MessageNotSent => ("Error"@, "Error sending message"@),
    }
}

impl Rejection {
    /// The field and the message the rejection is reported under.
    pub fn text(&self) -> (t: (&'static str, &'static str))
        ensures
            (t.0@, t.1@) == rejection_text(*self),
    {
        match self {
            Rejection::WebhookNotVerified => ("webhook", "Cannot verify "),
            Rejection::InvalidRequest => ("Deserialize", "Invalid Request"),
            Rejection::NotDeserializable => ("deserialize", "could not deserialize"),
            Rejection::DocumentNotPdf => ("file type", "document uploaded is not pdf."),
            Rejection::MessageNotSent => ("Error", "Error sending message"),
        }
    }
}

/// The message a failure is reported with.
pub open spec fn failure_text(f: Failure) -> Seq<char> {
    match f {
        Failure::InvalidOrderId => "Invalid order_id"@,
        Failure::OrderIdNotParsed => "Could not parse order_id"@,
        Failure::TimesNotComparable => "could not compare times"@,
        Failure::MissingOrderDetails => "Could not get order details"@,
        Failure::PayloadNotSerializable => "Could not serialize payload to string"@,
        Failure::EncryptionFailed => "Could not encrypt QR payload"@,
        Failure::InvalidQrFormat => "Encrypted message is not in valid format."@,
        Failure::NonceNotDecoded => "Could not decode nonce"@,
        Failure::HashNotDecoded => "could not decode hash"@,
        Failure::DecryptionFailed => "Could not decrypt hash"@,
        Failure::NotUtf8 => "Could not decode utf8 string"@,
        Failure::QrPayloadNotParsed => "Could not parse JSON for QR payload"@,
        Failure::ItemNotFound => "Could not find item"@,
        Failure::InvalidEventNotification => "Invalid event notification"@,
        Failure::ReplyNotDeserializable => "Could not deserialize payload."@,
        Failure::Database => "database error"@,
        Failure::PartNotCreated => "Could not create part"@,
        Failure::UploadFailed => "Could not upload image."@,
        Failure::UploadResponseNotRead => "Could not deserialize media upload response."@,
    }
}

impl Failure {
    /// The message the failure is reported with.
    pub fn text(&self) -> (t: &'static str)
        ensures
            t@ == failure_text(*self),
    {
        match self {
            Failure::InvalidOrderId => "Invalid order_id",
            Failure::OrderIdNotParsed => "Could not parse order_id",
            Failure::TimesNotComparable => "could not compare times",
            Failure::MissingOrderDetails => "Could not get order details",
            Failure::PayloadNotSerializable => "Could not serialize payload to string",
            Failure::EncryptionFailed => "Could not encrypt QR payload",
            Failure::InvalidQrFormat => "Encrypted message is not in valid format.",
            Failure::NonceNotDecoded => "Could not decode nonce",
            Failure::HashNotDecoded => "could not decode hash",
            Failure::DecryptionFailed => "Could not decrypt hash",
            Failure::NotUtf8 => "Could not decode utf8 string",
            Failure::QrPayloadNotParsed => "Could not parse JSON for QR payload",
            Failure::ItemNotFound => "Could not find item",
            Failure::InvalidEventNotification => "Invalid event notification",
            Failure::ReplyNotDeserializable => "Could not deserialize payload.",
            Failure::Database => "database error",
            Failure::PartNotCreated => "Could not create part",
            Failure::UploadFailed => "Could not upload image.",
            Failure::UploadResponseNotRead => "Could not deserialize media upload response.",
        }
    }
}

} // verus!
