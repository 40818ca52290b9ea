use scanox_backend::http::error::{Error, Failure, Rejection};
use scanox_backend::http::types::{
    EventNotificationChangesFb, EventNotificationContactFb, EventNotificationEntryFb,
    EventNotificationFb, EventNotificationStatusFb, EventNotificationValueFb,
    EventNotificationsContactProfileFb, EventNotificationsDocumentFb,
    EventNotificationsInteractiveFb, EventNotificationsInteractiveReplyPayloadFb,
    EventNotificationsMessagesFb, EventNotificationsNfmReplyFb, ItemType,
};
use scanox_backend::http::whatsapp::{
    build_message_body, classify_notification, count_pdf_pages, image_message, invoice_request_body,
    order_id_text, payment_reference, payment_request, read_order_choice, require_pdf,
    resolve_razorpay_item, verify_webhook, InvoiceOrderDetails, NotificationAction,
    OrderObjectPaymentsAPI, PriceOrderObjectPaymentsAPI, RazorpayItem, SendMessageType,
    TextMessage, UserOrders,
};
use serde_json::Value;
use lopdf::{Document, Object};
use std::collections::HashMap;

const ORDER: u128 = 0x67e55044_10b1_426f_9247_bb680e5fe0c8;

fn obj(fields: Vec<(&str, Value)>) -> Value {
    let mut map = serde_json::Map::new();
    for (k, v) in fields {
        map.insert(k.to_string(), v);
    }
    Value::Object(map)
}

fn s(text: &str) -> Value {
    Value::String(text.to_string())
}

fn n(value: i64) -> Value {
    Value::from(value)
}

fn price(value: i64) -> Value {
    obj(vec![("value", n(value)), ("offset", n(100))])
}

fn body_map(fields: Vec<(String, String)>) -> HashMap<String, String> {
    fields.into_iter().collect()
}

fn document(filename: &str) -> EventNotificationsDocumentFb {
    EventNotificationsDocumentFb {
        caption: None,
        filename: filename.to_string(),
        sha256: "sha".to_string(),
        mime_type: "application/pdf".to_string(),
        id: "media-1".to_string(),
    }
}

fn message(document: Option<EventNotificationsDocumentFb>, reply: Option<&str>) -> EventNotificationsMessagesFb {
    EventNotificationsMessagesFb {
        from: "919999999999".to_string(),
        id: "wamid".to_string(),
        timestamp: "1725029869".to_string(),
        kind: "document".to_string(),
        button: None,
        interactive: reply.map(|r| EventNotificationsInteractiveFb {
            kind: None,
            nfm_reply: EventNotificationsNfmReplyFb { response_json: r.to_string() },
        }),
        text: None,
        document,
    }
}

fn contact(name: Option<&str>) -> EventNotificationContactFb {
    EventNotificationContactFb {
        wa_id: "919999999999".to_string(),
        user_id: None,
        profile: name.map(|n| EventNotificationsContactProfileFb { name: n.to_string() }),
    }
}

fn event(value: Option<EventNotificationValueFb>) -> EventNotificationFb {
    EventNotificationFb {
        object: "whatsapp_business_account".to_string(),
        entry: vec![EventNotificationEntryFb {
            id: "entry".to_string(),
            changes: vec![EventNotificationChangesFb { field: "messages".to_string(), value }],
        }],
    }
}

fn value_with_messages(messages: Vec<EventNotificationsMessagesFb>, name: Option<&str>) -> EventNotificationValueFb {
    EventNotificationValueFb {
        contacts: Some(vec![contact(name)]),
        messaging_product: "whatsapp".to_string(),
        messages: Some(messages),
        statuses: None,
    }
}

fn value_with_status(status: &str) -> EventNotificationValueFb {
    EventNotificationValueFb {
        contacts: None,
        messaging_product: "whatsapp".to_string(),
        messages: None,
        statuses: Some(vec![EventNotificationStatusFb {
            status: status.to_string(),
            recipient_id: "919999999999".to_string(),
        }]),
    }
}

fn catalogue() -> HashMap<u8, String> {
    let mut items = HashMap::new();
    items.insert(0u8, "Black and white:150".to_string());
    items.insert(1u8, "Black and white, both sides:250".to_string());
    items.insert(2u8, "Colour".to_string());
    items
}

#[test]
fn item_type_follows_colour_and_sides() {
    assert_eq!(ItemType::from(false, false), ItemType::BW);
    assert_eq!(ItemType::from(false, true), ItemType::BWT);
    assert_eq!(ItemType::from(true, false), ItemType::C);
    assert_eq!(ItemType::from(true, true), ItemType::CT);
    assert_eq!(ItemType::CT.key(), 3);
}

#[test]
fn payment_order_multiplies_price_by_pages_and_copies() {
    let item = RazorpayItem { name: "Colour".to_string(), price: 500 };
    let order = OrderObjectPaymentsAPI::new(item, 3, 4);
    assert_eq!(order.status, "pending");
    assert_eq!(order.items.len(), 1);
    assert_eq!(order.items[0].name, "Colour");
    assert_eq!(order.items[0].quantity, 3);
    assert_eq!(order.items[0].amount, PriceOrderObjectPaymentsAPI { value: 2000, offset: 100 });
    assert_eq!(order.subtotal, PriceOrderObjectPaymentsAPI { value: 6000, offset: 100 });
    assert_eq!(order.tax, PriceOrderObjectPaymentsAPI { value: 0, offset: 100 });
}

#[test]
fn text_message_body_carries_the_raw_text() {
    let body = body_map(build_message_body("91".to_string(), SendMessageType::Text("hi \"there\"")));
    assert_eq!(body.len(), 5);
    assert_eq!(body["messaging_product"], "whatsapp");
    assert_eq!(body["to"], "91");
    assert_eq!(body["recipient_type"], "individual");
    assert_eq!(body["type"], "text");
    assert_eq!(body["text"], "hi \"there\"");
}

#[test]
fn image_message_names_the_media_as_json() {
    let content = image_message("media\n\"7\"");
    assert_eq!(content, serde_json::to_string(&obj(vec![("id", s("media\n\"7\""))])).unwrap());
    let body = body_map(build_message_body("91".to_string(), SendMessageType::Image(content.clone())));
    assert_eq!(body["type"], "image");
    assert_eq!(body["image"], content);
}

#[test]
fn place_order_message_is_the_flow_serde_json_writes() {
    let expected = obj(vec![
        ("type", s("flow")),
        ("body", obj(vec![("text", s("Received a document, Click the button below to place a print job."))])),
        (
            "action",
            obj(vec![
                ("name", s("flow")),
                (
                    "parameters",
                    obj(vec![
                        ("flow_cta", s("Place Order")),
                        ("flow_id", s("1005784394595435")),
                        ("flow_message_version", n(3)),
                    ]),
                ),
            ]),
        ),
    ]);
    let body = body_map(build_message_body("91".to_string(), SendMessageType::PlaceOrder()));
    assert_eq!(body["type"], "interactive");
    assert_eq!(body["interactive"], serde_json::to_string(&expected).unwrap());
}

#[test]
fn collect_payment_message_is_the_order_details_serde_json_writes() {
    let item = RazorpayItem { name: "Colour \u{1}".to_string(), price: -7 };
    let order = OrderObjectPaymentsAPI::new(item, 2, 5);
    let order_value = obj(vec![
        ("status", s("pending")),
        ("subtotal", price(-70)),
        ("tax", price(0)),
        ("items", Value::Array(vec![obj(vec![("name", s("Colour \u{1}")), ("amount", price(-35)), ("quantity", n(2))])])),
    ]);
    let expected = obj(vec![
        ("type", s("order_details")),
        ("body", obj(vec![("text", s("Please verify the order and press pay now to proceed."))])),
        (
            "action",
            obj(vec![
                ("name", s("review_and_pay")),
                (
                    "parameters",
                    obj(vec![
                        ("reference_id", s("ref\\1")),
                        ("type", s("digital-goods")),
                        (
                            "payment_settings",
                            Value::Array(vec![obj(vec![
                                ("type", s("payment_gateway")),
                                (
                                    "payment_gateway",
                                    obj(vec![("type", s("razorpay")), ("configuration_name", s("Razorpay"))]),
                                ),
                            ])]),
                        ),
                        ("currency", s("INR")),
                        ("total_amount", price(-70)),
                        ("order", order_value),
                    ]),
                ),
            ]),
        ),
    ]);
    let body = body_map(build_message_body("91".to_string(), SendMessageType::CollectPayment("ref\\1", order)));
    assert_eq!(body["type"], "interactive");
    assert_eq!(body["interactive"], serde_json::to_string(&expected).unwrap());
}

#[test]
fn payment_request_references_the_order() {
    assert_eq!(payment_reference(ORDER), "67e55044-10b1-426f-9247-bb680e5");
    let item = RazorpayItem { name: "BW".to_string(), price: 150 };
    let body = body_map(payment_request("91".to_string(), ORDER, item, 2, 3));
    let interactive: Value = serde_json::from_str(&body["interactive"]).unwrap();
    let parameters = &interactive["action"]["parameters"];
    assert_eq!(parameters["reference_id"], s("67e55044-10b1-426f-9247-bb680e5"));
    assert_eq!(parameters["total_amount"]["value"], n(900));
    assert_eq!(parameters["order"]["items"][0]["amount"]["value"], n(450));
    assert_eq!(parameters["order"]["items"][0]["quantity"], n(2));
}

#[test]
fn order_id_text_is_hyphenated_lower_case() {
    assert_eq!(order_id_text(ORDER), "67e55044-10b1-426f-9247-bb680e5fe0c8");
    assert_eq!(order_id_text(0), "00000000-0000-0000-0000-000000000000");
}

#[test]
fn webhook_subscription_answers_the_challenge() {
    let result = verify_webhook(Some("subscribe".to_string()), Some("hook".to_string()), Some("4242".to_string()), "hook");
    assert_eq!(result, Ok("4242".to_string()));
}

#[test]
fn webhook_subscription_is_refused_otherwise() {
    let refused = Err(Error::UnprocessableEntity(Rejection::WebhookNotVerified));
    assert_eq!(verify_webhook(Some("subscribe".to_string()), Some("other".to_string()), Some("1".to_string()), "hook"), refused);
    assert_eq!(verify_webhook(Some("unsubscribe".to_string()), Some("hook".to_string()), Some("1".to_string()), "hook"), refused);
    assert_eq!(verify_webhook(Some("subscribe".to_string()), Some("hook".to_string()), None, "hook"), refused);
    assert_eq!(verify_webhook(None, Some("hook".to_string()), Some("1".to_string()), "hook"), refused);
}

#[test]
fn recorded_order_is_found_for_its_user() {
    let mut orders = UserOrders::new();
    assert_eq!(orders.order_of("91"), None);
    orders.record("91".to_string(), 5);
    orders.record("92".to_string(), 6);
    assert_eq!(orders.order_of("91"), Some(5));
    orders.record("91".to_string(), 7);
    assert_eq!(orders.order_of("91"), Some(7));
    assert_eq!(orders.order_of("92"), Some(6));
}

#[test]
fn only_pdf_documents_are_accepted() {
    assert_eq!(require_pdf(&document("thesis.pdf")), Ok(()));
    assert_eq!(require_pdf(&document("photo.png")), Err(Error::UnprocessableEntity(Rejection::DocumentNotPdf)));
    assert_eq!(require_pdf(&document("thesis.PDF")), Err(Error::UnprocessableEntity(Rejection::DocumentNotPdf)));
    assert_eq!(require_pdf(&document("pdf")), Err(Error::UnprocessableEntity(Rejection::DocumentNotPdf)));
}

#[test]
fn order_form_is_read() {
    let reply = EventNotificationsInteractiveReplyPayloadFb {
        copies: "3".to_string(),
        color: "2".to_string(),
        side: "1".to_string(),
    };
    let choice = read_order_choice(&reply);
    assert_eq!((choice.copies, choice.is_color, choice.is_both_side), (3, true, false));
}

#[test]
fn unreadable_copies_default_to_one() {
    for copies in ["abc", "", "+", "-", "70000", " 3", "3.0"] {
        let reply = EventNotificationsInteractiveReplyPayloadFb {
            copies: copies.to_string(),
            color: "1".to_string(),
            side: "2".to_string(),
        };
        let choice = read_order_choice(&reply);
        assert_eq!(choice.copies, 1, "copies {:?}", copies);
        assert!(choice.is_both_side);
    }
}

#[test]
fn copies_parse_as_rust_does() {
    for copies in ["+7", "-5", "007", "32767", "-32768", "32768", "-32769", "99999999999"] {
        let reply = EventNotificationsInteractiveReplyPayloadFb {
            copies: copies.to_string(),
            color: "2".to_string(),
            side: "2".to_string(),
        };
        let expected = copies.parse::<i16>().unwrap_or(1);
        assert_eq!(read_order_choice(&reply).copies, expected, "copies {:?}", copies);
    }
}

#[test]
fn catalogue_entry_is_read_as_name_and_price() {
    let items = catalogue();
    let item = resolve_razorpay_item(&items, ItemType::BWT).unwrap();
    assert_eq!(item.name, "Black and white, both sides");
    assert_eq!(item.price, 250);
}

#[test]
fn missing_or_unreadable_catalogue_entry_is_not_found() {
    let items = catalogue();
    assert_eq!(resolve_razorpay_item(&items, ItemType::C).err(), Some(Error::Internal(Failure::ItemNotFound)));
    assert_eq!(resolve_razorpay_item(&items, ItemType::CT).err(), Some(Error::Internal(Failure::ItemNotFound)));
}

#[test]
fn document_notification_is_classified() {
    let e = event(Some(value_with_messages(vec![message(Some(document("a.pdf")), None)], Some("Asha 🙂✅"))));
    match classify_notification(e, "fallback".to_string()) {
        Ok(NotificationAction::Document { document, from, user_name }) => {
            assert_eq!(document.filename, "a.pdf");
            assert_eq!(from, "919999999999");
            assert_eq!(user_name, "Asha ");
        }
        _ => panic!("expected a document"),
    }
}

#[test]
fn contact_without_profile_takes_the_fallback_name() {
    let e = event(Some(value_with_messages(vec![message(None, Some("{}"))], None)));
    match classify_notification(e, "user⚡1".to_string()) {
        Ok(NotificationAction::Interactive { response_json, from, user_name }) => {
            assert_eq!(response_json, "{}");
            assert_eq!(from, "919999999999");
            assert_eq!(user_name, "user1");
        }
        _ => panic!("expected an interactive reply"),
    }
}

#[test]
fn captured_payment_is_classified() {
    match classify_notification(event(Some(value_with_status("captured"))), String::new()) {
        Ok(NotificationAction::PaymentCaptured { recipient_id }) => assert_eq!(recipient_id, "919999999999"),
        _ => panic!("expected a captured payment"),
    }
}

#[test]
fn other_notifications_are_ignored() {
    let ignored = |e| matches!(classify_notification(e, String::new()), Ok(NotificationAction::Ignore));
    assert!(ignored(event(Some(value_with_status("delivered")))));
    assert!(ignored(event(None)));
    assert!(ignored(event(Some(value_with_messages(vec![], None)))));
    assert!(ignored(event(Some(value_with_messages(vec![message(None, None)], None)))));
}

#[test]
fn notification_without_entries_is_invalid() {
    let empty = EventNotificationFb { object: "x".to_string(), entry: vec![] };
    assert!(matches!(
        classify_notification(empty, String::new()),
        Err(Error::Internal(Failure::InvalidEventNotification))
    ));
    let no_changes = EventNotificationFb {
        object: "x".to_string(),
        entry: vec![EventNotificationEntryFb { id: "e".to_string(), changes: vec![] }],
    };
    assert!(matches!(
        classify_notification(no_changes, String::new()),
        Err(Error::Internal(Failure::InvalidEventNotification))
    ));
}

fn pdf_with_pages(count: u32) -> Vec<u8> {
    let mut doc = Document::with_version("1.5");
    let pages_id = doc.new_object_id();
    let mut kids = Vec::new();
    for _ in 0..count {
        let mut page = lopdf::Dictionary::new();
        page.set("Type", Object::Name(b"Page".to_vec()));
        page.set("Parent", Object::Reference(pages_id));
        kids.push(Object::Reference(doc.add_object(page)));
    }
    let mut pages = lopdf::Dictionary::new();
    pages.set("Type", Object::Name(b"Pages".to_vec()));
    pages.set("Kids", Object::Array(kids));
    pages.set("Count", Object::Integer(count as i64));
    doc.objects.insert(pages_id, Object::Dictionary(pages));
    let mut catalog = lopdf::Dictionary::new();
    catalog.set("Type", Object::Name(b"Catalog".to_vec()));
    catalog.set("Pages", Object::Reference(pages_id));
    let catalog_id = doc.add_object(catalog);
    doc.trailer.set("Root", Object::Reference(catalog_id));
    let mut bytes = Vec::new();
    doc.save_to(&mut bytes).unwrap();
    bytes
}

#[test]
fn pdf_pages_are_counted() {
    assert_eq!(count_pdf_pages(&pdf_with_pages(3)), Ok(3));
}

#[test]
fn page_count_keeps_its_low_eight_bits() {
    assert_eq!(count_pdf_pages(&pdf_with_pages(257)), Ok(1));
}

#[test]
fn bytes_that_are_not_a_pdf_are_not_found() {
    assert_eq!(count_pdf_pages(b"hello"), Err(Error::NotFound));
}

#[test]
fn text_message_json() {
    let message = TextMessage::from_text("a\tb");
    assert_eq!(message.as_string(), "{\"body\":\"a\\tb\"}");
}

#[test]
fn invoice_body_is_the_json_serde_json_writes() {
    let order = InvoiceOrderDetails {
        order_id: "o-1".to_string(),
        document_id: "doc".to_string(),
        from_number: "91".to_string(),
        user_name: "Asha".to_string(),
        copies: 2,
        item: "item_x".to_string(),
    };
    let expected = obj(vec![
        ("type", s("invoice")),
        ("description", s("Payment invoice for scanox order id o-1")),
        ("customer", obj(vec![("name", s("Asha")), ("contact", s("91"))])),
        ("line_items", Value::Array(vec![obj(vec![("item_id", s("item_x")), ("quantity", n(14))])])),
    ]);
    assert_eq!(invoice_request_body(&order, 7), serde_json::to_string(&expected).unwrap());
}
