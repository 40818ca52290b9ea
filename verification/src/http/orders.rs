//! The print shop's side: who may call the order endpoints, and what a
//! scanned QR code says about its order.
use crate::http::error::{Error, Failure};
use crate::http::external::{parse_uuid, uuid_hyphenated, uuid_parse_spec, uuid_text};
use crate::http::razorpay::{QRPayloadData, Timestamp};
use crate::http::text::text_eq;
use vstd::prelude::*;

verus! {

/// The body of a QR verification request: the scanned text.
pub struct VerifyQRCodeRequestBody {
    pub qrcode_data: String,
}

/// The order a verified QR code stands for.
pub struct OrderDetails {
    pub order_id: String,
    pub copies: i16,
    pub is_color: bool,
    pub is_both_side: bool,
}

/// The answer to a QR verification request.
pub struct VerifyQRCodeResponse {
    pub info: Option<OrderDetails>,
    pub verified: bool,
}

/// The columns of an order row that a QR verification reads.
#[derive(Debug, Clone, Copy, PartialEq, Eq, Structural)]
pub struct OrderRecord {
    pub order_id: u128,
    pub is_received: Option<bool>,
    pub is_paid: Option<bool>,
    pub copies: Option<i16>,
    pub is_color: Option<bool>,
    pub is_both_side: Option<bool>,
}

/// The `Authorization` header a print shop must send.
pub open spec fn bearer_header(client_secret: Seq<char>) -> Seq<char> {
    "Bearer "@ + client_secret
}

/// Whether a request may reach the order endpoints: its `Authorization`
/// header is present and reads `Bearer ` followed by the client secret.
pub fn authorize(header: Option<&str>, client_secret: &str) -> (allowed: bool)
    ensures
        allowed <==> (header matches Some(h) && h@ == bearer_header(client_secret@)),
{
    match header {
        Some(h) => {
            let mut expected = String::from_str("Bearer ");
            expected.append(client_secret);
            text_eq(h, expected.as_str())
        },
        None => false,
    }
}

/// The order id in a collection path, read as a UUID.
pub fn collect_order_id(path: &str) -> (result: Result<u128, Error>)
    ensures
        match uuid_parse_spec(path@) {
            Some(id) => result == Ok::<u128, Error>(id),
            None => result == Err::<u128, Error>(Error::Internal(Failure::InvalidOrderId)),
        },
{
    match parse_uuid(path) {
        Some(id) => Ok(id),
        None => Err(Error::Internal(Failure::InvalidOrderId)),
    }
}

/// The order id inside a decrypted QR payload, read as a UUID. The
/// hyphenated form of an id reads back as that id.
pub fn qr_order_id(data: &QRPayloadData) -> (result: Result<u128, Error>)
    ensures
        match uuid_parse_spec(data.order_id@) {
            Some(id) => result == Ok::<u128, Error>(id),
            None => result == Err::<u128, Error>(Error::Internal(Failure::OrderIdNotParsed)),
        },
        forall|id: u128| #[trigger] uuid_hyphenated(id) == data.order_id@ ==> result == Ok::<u128, Error>(id),
{
    match parse_uuid(data.order_id.as_str()) {
        Some(id) => Ok(id),
        None => Err(Error::Internal(Failure::OrderIdNotParsed)),
    }
}

/// How long a QR code stays valid: one day, in nanoseconds.
pub open spec fn qr_lifetime_nanos() -> int {
    86400int * 1_000_000_000int
}

/// A QR code issued at `created_at` has expired at `now`: more than one day
/// has passed.
pub open spec fn qr_expired(now: Timestamp, created_at: Timestamp) -> bool {
    now.total_nanos() - created_at.total_nanos() > qr_lifetime_nanos()
}

/// The time from `earlier` to `now` as seconds and nanoseconds; nothing
/// when `earlier` is later than `now`, as `SystemTime::duration_since` does.
pub fn duration_since(now: Timestamp, earlier: Timestamp) -> (d: Option<Timestamp>)
    requires
        now.valid(),
        earlier.valid(),
    ensures
        d is None <==> earlier.total_nanos() > now.total_nanos(),
        d matches Some(e) ==> e.valid() && e.total_nanos() == now.total_nanos() - earlier.total_nanos(),
{
    if now.secs < earlier.secs || (now.secs == earlier.secs && now.nanos < earlier.nanos) {
        None
    } else if now.nanos >= earlier.nanos {
        Some(Timestamp { secs: now.secs - earlier.secs, nanos: now.nanos - earlier.nanos })
    } else {
        Some(Timestamp { secs: now.secs - earlier.secs - 1, nanos: now.nanos + 1_000_000_000 - earlier.nanos })
    }
}

/// Whether a duration is longer than one day, compared as seconds then
/// nanoseconds the way `time::Duration::DAY` compares with a std duration.
pub fn longer_than_a_day(d: Timestamp) -> (longer: bool)
    requires
        d.valid(),
    ensures
        longer == (d.total_nanos() > qr_lifetime_nanos()),
{
    d.secs > 86400 || (d.secs == 86400 && d.nanos > 0)
}

/// A QR code is good for its order when the order is paid, not yet
/// collected, and the code is at most one day old.
pub open spec fn order_verified(order: OrderRecord, expired: bool) -> bool {
    match (order.is_received, order.is_paid) {
        (Some(received), Some(paid)) => !received && paid && !expired,
        _ => false,
    }
}

/// The answer to a QR verification, once the payload's order row has been
/// read: an error when the code claims a time after `now` or the row lacks
/// the print options, otherwise whether the code is good for its order and,
/// only when it is, the order's details.
pub fn verify_order(now: Timestamp, created_at: Timestamp, order: OrderRecord) -> (result: Result<
    VerifyQRCodeResponse,
    Error,
>)
    requires
        now.valid(),
        created_at.valid(),
    ensures
        created_at.total_nanos() > now.total_nanos() ==> (result matches Err(e) && e
            == Error::Internal(Failure::TimesNotComparable)),
        created_at.total_nanos() <= now.total_nanos() && (order.copies is None || order.is_color is None
            || order.is_both_side is None) ==> (result matches Err(e) && e
            == Error::Internal(Failure::MissingOrderDetails)),
        created_at.total_nanos() <= now.total_nanos() && order.copies is Some && order.is_color is Some
            && order.is_both_side is Some ==> result is Ok,
        result matches Ok(response) ==> {
            &&& response.verified == order_verified(order, qr_expired(now, created_at))
            &&& response.verified <==> (order.is_paid == Some(true) && order.is_received == Some(false)
                && now.total_nanos() - created_at.total_nanos() <= 86400 * 1_000_000_000)
            &&& response.info is Some <==> response.verified
            &&& response.info matches Some(info) ==> info.order_id@ == uuid_hyphenated(order.order_id)
                && order.copies == Some(info.copies) && order.is_color == Some(info.is_color)
                && order.is_both_side == Some(info.is_both_side)
        },
{
    let elapsed = match duration_since(now, created_at) {
        Some(d) => d,
        None => return Err(Error::Internal(Failure::TimesNotComparable)),
    };
    let is_expired = longer_than_a_day(elapsed);
    let verified = match (order.is_received, order.is_paid) {
        (Some(is_received), Some(is_paid)) => !is_received && is_paid && !is_expired,
        _ => false,
    };
    let copies = match order.copies {
        Some(c) => c,
        None => return Err(Error::Internal(Failure::MissingOrderDetails)),
    };
    let is_color = match order.is_color {
        Some(c) => c,
        None => return Err(Error::Internal(Failure::MissingOrderDetails)),
    };
    let is_both_side = match order.is_both_side {
        Some(s) => s,
        None => return Err(Error::Internal(Failure::MissingOrderDetails)),
    };
    let info = if verified {
        Some(OrderDetails { order_id: uuid_text(order.order_id), copies, is_color, is_both_side })
    } else {
        None
    };
    Ok(VerifyQRCodeResponse { info, verified })
}

/// A QR code is only ever accepted for an order that is paid, not yet
/// collected, and at most one day old.
pub proof fn lemma_verified_order_is_paid_fresh_and_uncollected(
    order: OrderRecord,
    now: Timestamp,
    created_at: Timestamp,
)
    requires
        order_verified(order, qr_expired(now, created_at)),
    ensures
        order.is_paid == Some(true),
        order.is_received == Some(false),
        now.total_nanos() - created_at.total_nanos() <= qr_lifetime_nanos(),
{
}

/// Conversely, a QR code is accepted for every order that is paid, not yet
/// collected, and at most one day old, whatever its print options.
pub proof fn lemma_paid_fresh_uncollected_order_is_verified(
    order: OrderRecord,
    now: Timestamp,
    created_at: Timestamp,
)
    requires
        order.is_paid == Some(true),
        order.is_received == Some(false),
        now.total_nanos() - created_at.total_nanos() <= 86400 * 1_000_000_000,
    ensures
        order_verified(order, qr_expired(now, created_at)),
{
}

} // verus!
