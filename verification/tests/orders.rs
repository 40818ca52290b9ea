use scanox_backend::http::error::{Error, Failure};
use scanox_backend::http::orders::{
    authorize, collect_order_id, duration_since, longer_than_a_day, qr_order_id, verify_order,
    OrderRecord,
};
use scanox_backend::http::razorpay::{QRPayloadData, Timestamp};

const ORDER: u128 = 0x67e55044_10b1_426f_9247_bb680e5fe0c8;

fn paid_order() -> OrderRecord {
    OrderRecord {
        order_id: ORDER,
        is_received: Some(false),
        is_paid: Some(true),
        copies: Some(2),
        is_color: Some(true),
        is_both_side: Some(false),
    }
}

fn at(secs: u64, nanos: u32) -> Timestamp {
    Timestamp { secs, nanos }
}

#[test]
fn bearer_secret_is_authorized() {
    assert!(authorize(Some("Bearer shop-secret"), "shop-secret"));
}

#[test]
fn wrong_or_missing_header_is_refused() {
    assert!(!authorize(Some("Bearer other"), "shop-secret"));
    assert!(!authorize(Some("shop-secret"), "shop-secret"));
    assert!(!authorize(Some("bearer shop-secret"), "shop-secret"));
    assert!(!authorize(None, "shop-secret"));
}

#[test]
fn collection_path_reads_a_uuid() {
    assert_eq!(collect_order_id("67e55044-10b1-426f-9247-bb680e5fe0c8"), Ok(ORDER));
    assert_eq!(collect_order_id("67E5504410B1426F9247BB680E5FE0C8"), Ok(ORDER));
}

#[test]
fn collection_path_that_is_not_a_uuid_is_refused() {
    assert_eq!(collect_order_id("order-1"), Err(Error::Internal(Failure::InvalidOrderId)));
}

#[test]
fn qr_payload_order_id_reads_a_uuid() {
    let data = QRPayloadData { created_at: at(0, 0), order_id: "67e55044-10b1-426f-9247-bb680e5fe0c8".to_string() };
    assert_eq!(qr_order_id(&data), Ok(ORDER));
    let bad = QRPayloadData { created_at: at(0, 0), order_id: "nope".to_string() };
    assert_eq!(qr_order_id(&bad), Err(Error::Internal(Failure::OrderIdNotParsed)));
}

#[test]
fn duration_borrows_a_second() {
    assert_eq!(duration_since(at(10, 100), at(8, 200)), Some(at(1, 999_999_900)));
    assert_eq!(duration_since(at(10, 100), at(10, 100)), Some(at(0, 0)));
    assert_eq!(duration_since(at(10, 100), at(10, 101)), None);
}

#[test]
fn one_day_exactly_is_not_longer_than_a_day() {
    assert!(!longer_than_a_day(at(86400, 0)));
    assert!(longer_than_a_day(at(86400, 1)));
    assert!(!longer_than_a_day(at(86399, 999_999_999)));
}

#[test]
fn fresh_paid_uncollected_order_is_verified() {
    let response = verify_order(at(1000, 0), at(900, 0), paid_order()).unwrap();
    assert!(response.verified);
    let info = response.info.unwrap();
    assert_eq!(info.order_id, "67e55044-10b1-426f-9247-bb680e5fe0c8");
    assert_eq!(info.copies, 2);
    assert!(info.is_color);
    assert!(!info.is_both_side);
}

#[test]
fn code_older_than_a_day_is_not_verified() {
    let response = verify_order(at(86400 + 900, 1), at(900, 0), paid_order()).unwrap();
    assert!(!response.verified);
    assert!(response.info.is_none());
    let response = verify_order(at(86400 + 900, 0), at(900, 0), paid_order()).unwrap();
    assert!(response.verified);
}

#[test]
fn unpaid_or_collected_order_is_not_verified() {
    let mut order = paid_order();
    order.is_paid = Some(false);
    let response = verify_order(at(1000, 0), at(900, 0), order).unwrap();
    assert!(!response.verified);
    assert!(response.info.is_none());
    let mut order = paid_order();
    order.is_received = Some(true);
    assert!(!verify_order(at(1000, 0), at(900, 0), order).unwrap().verified);
    let mut order = paid_order();
    order.is_paid = None;
    assert!(!verify_order(at(1000, 0), at(900, 0), order).unwrap().verified);
}

#[test]
fn code_from_the_future_is_an_error() {
    assert_eq!(
        verify_order(at(900, 0), at(900, 1), paid_order()).err(),
        Some(Error::Internal(Failure::TimesNotComparable))
    );
}

#[test]
fn order_without_its_options_is_an_error() {
    let mut order = paid_order();
    order.copies = None;
    assert_eq!(
        verify_order(at(1000, 0), at(900, 0), order).err(),
        Some(Error::Internal(Failure::MissingOrderDetails))
    );
    let mut order = paid_order();
    order.is_both_side = None;
    assert_eq!(
        verify_order(at(1000, 0), at(900, 0), order).err(),
        Some(Error::Internal(Failure::MissingOrderDetails))
    );
}
