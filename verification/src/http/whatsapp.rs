//! The customer's side, over WhatsApp: the messages the service sends, the
//! payment request for an order, and the decisions taken on each webhook
//! notification.
use crate::http::error::{Error, Failure, Rejection};
use crate::http::external::{demoji, is_emoji, pdf_page_count, pdf_page_count_spec, uuid_hyphenated, uuid_text};
use crate::http::text::{
    ends_with, ends_with_spec, json_string, parse_i16, parse_i16_spec, parse_i32,
    parse_i32_spec, push_json_string, push_signed_decimal, signed_decimal, text_eq,
};
use crate::http::types::{
    EventNotificationContactFb, EventNotificationFb, EventNotificationsDocumentFb,
    EventNotificationsInteractiveReplyPayloadFb, EventNotificationsMessagesFb,
    EventNotificationValueFb, ItemType,
};
use std::collections::HashMap;
use vstd::hash_map::StringHashMap;
use vstd::prelude::*;

verus! {

// ---------------------------------------------------------------------------
// The payment request of an order
// ---------------------------------------------------------------------------

/// A catalogue entry: its name and its price per page, in paise.
pub struct RazorpayItem {
    pub name: String,
    pub price: i32,
}

/// A price as WhatsApp's payments API writes it: `value / offset` rupees.
#[derive(Debug, Clone, Copy, PartialEq, Eq, Structural)]
pub struct PriceOrderObjectPaymentsAPI {
    pub value: i32,
    pub offset: i32,
}

/// One line of an order: what is printed, the price of one copy, how many copies.
pub struct ItemOrderObjectPaymentsAPI {
    pub name: String,
    pub amount: PriceOrderObjectPaymentsAPI,
    pub quantity: i32,
}

/// The order a payment request asks the customer to pay.
pub struct OrderObjectPaymentsAPI {
    pub status: String,
    pub subtotal: PriceOrderObjectPaymentsAPI,
    pub tax: PriceOrderObjectPaymentsAPI,
    pub items: Vec<ItemOrderObjectPaymentsAPI>,
}

/// The arithmetic of an order fits the integer types it is done in:
/// copies times pages in `i16`, the prices in `i32`.
pub open spec fn order_fits(price: int, copies: int, pages: int) -> bool {
    &&& i16::MIN <= copies * pages <= i16::MAX
    &&& i32::MIN <= price * pages <= i32::MAX
    &&& i32::MIN <= price * (copies * pages) <= i32::MAX
}

impl OrderObjectPaymentsAPI {
    /// The pending order for `copies` copies of a `pages`-page document at
    /// the item's price per page: one line whose amount is the price of one
    /// copy, a subtotal for all copies, and no tax.
    pub fn new(item: RazorpayItem, copies: i16, pages: i16) -> (order: OrderObjectPaymentsAPI)
        requires
            order_fits(item.price as int, copies as int, pages as int),
        ensures
            order.status@ == "pending"@,
            order.items@.len() == 1,
            order.items@[0].name == item.name,
            order.items@[0].quantity == copies as i32,
            order.items@[0].amount == (PriceOrderObjectPaymentsAPI {
                value: (item.price * pages) as i32,
                offset: 100,
            }),
            order.subtotal == (PriceOrderObjectPaymentsAPI {
                value: (item.price * (copies * pages)) as i32,
                offset: 100,
            }),
            order.tax == (PriceOrderObjectPaymentsAPI { value: 0, offset: 100 }),
    {
        let order_item = ItemOrderObjectPaymentsAPI {
            name: item.name,
            quantity: copies as i32,
            amount: PriceOrderObjectPaymentsAPI { value: item.price * pages as i32, offset: 100 },
        };
        let mut items = Vec::new();
        items.push(order_item);
        OrderObjectPaymentsAPI {
            status: String::from_str("pending"),
            items,
            subtotal: PriceOrderObjectPaymentsAPI { value: item.price * (copies * pages) as i32, offset: 100 },
            tax: PriceOrderObjectPaymentsAPI { value: 0, offset: 100 },
        }
    }
}

/// Where the name ends and the price begins in a catalogue entry: the last `:`.
pub open spec fn is_last_colon(entry: Seq<char>, i: int) -> bool {
    &&& 0 <= i < entry.len()
    &&& entry[i] == ':'
    &&& forall|j: int| i < j < entry.len() ==> entry[j] != ':'
}

impl RazorpayItem {
    /// The catalogue entry written `name:price`, the price per page in paise
    /// read as `str::parse::<i32>` does; nothing when there is no `:` or the
    /// price does not read.
    pub fn from_entry(entry: &str) -> (item: Option<RazorpayItem>)
        ensures
            item is Some <==> exists|i: int|
                is_last_colon(entry@, i) && parse_i32_spec(entry@.subrange(i + 1, entry@.len() as int)) is Some,
            forall|i: int|
                is_last_colon(entry@, i) ==> (item matches Some(it) ==> it.name@ == entry@.subrange(0, i)
                    && Some(it.price) == parse_i32_spec(entry@.subrange(i + 1, entry@.len() as int))),
    {
        let n = entry.unicode_len();
        let mut i: usize = n;
        while i > 0
            invariant
                i <= n,
                n == entry@.len(),
                forall|j: int| i <= j < n ==> entry@[j] != ':',
            decreases i,
        {
            if entry.get_char(i - 1) == ':' {
                let name = String::from_str(entry.substring_char(0, i - 1));
                let price_text = entry.substring_char(i, n);
                proof {
                    assert(is_last_colon(entry@, i - 1));
                    assert forall|k: int| is_last_colon(entry@, k) implies k == i - 1 by {
                        if k < i - 1 {
                            assert(entry@[i - 1] == ':');
                        }
                    }
                }
                return match parse_i32(price_text) {
                    Some(price) => Some(RazorpayItem { name, price }),
                    None => None,
                };
            }
            i -= 1;
        }
        None
    }
}

// ---------------------------------------------------------------------------
// JSON of the payment request
// ---------------------------------------------------------------------------

pub open spec fn price_json(p: PriceOrderObjectPaymentsAPI) -> Seq<char> {
    "{\"offset\":"@ + signed_decimal(p.offset as int) + ",\"value\":"@ + signed_decimal(p.value as int) + "}"@
}

/// An order line as a JSON object, from its name, amount and quantity.
pub open spec fn item_json_parts(name: Seq<char>, amount: PriceOrderObjectPaymentsAPI, quantity: i32) -> Seq<char> {
    "{\"amount\":"@ + price_json(amount) + ",\"name\":"@ + json_string(name) + ",\"quantity\":"@
        + signed_decimal(quantity as int) + "}"@
}

pub open spec fn item_json(item: ItemOrderObjectPaymentsAPI) -> Seq<char> {
    item_json_parts(item.name@, item.amount, item.quantity)
}

/// The items of an order separated by commas.
pub open spec fn items_json(items: Seq<ItemOrderObjectPaymentsAPI>) -> Seq<char>
    decreases items.len(),
{
    if items.len() == 0 {
        Seq::empty()
    } else if items.len() == 1 {
        item_json(items[0])
    } else {
        items_json(items.drop_last()) + ","@ + item_json(items.last())
    }
}

/// The order as a JSON object, keys in the sorted order serde_json's
/// `Value` writes them.
pub open spec fn order_json(order: OrderObjectPaymentsAPI) -> Seq<char> {
    order_json_parts(items_json(order.items@), order.status@, order.subtotal, order.tax)
}

/// An order as a JSON object, from the text of its items, its status,
/// subtotal and tax.
pub open spec fn order_json_parts(
    items: Seq<char>,
    status: Seq<char>,
    subtotal: PriceOrderObjectPaymentsAPI,
    tax: PriceOrderObjectPaymentsAPI,
) -> Seq<char> {
    "{\"items\":["@ + items + "],\"status\":"@ + json_string(status) + ",\"subtotal\":"@ + price_json(subtotal)
        + ",\"tax\":"@ + price_json(tax) + "}"@
}

fn push_price(out: &mut String, p: &PriceOrderObjectPaymentsAPI)
    ensures
        final(out)@ == old(out)@ + price_json(*p),
{
    out.append("{\"offset\":");
    push_signed_decimal(out, p.offset as i64);
    out.append(",\"value\":");
    push_signed_decimal(out, p.value as i64);
    out.append("}");
    proof {
        assert(final(out)@ =~= old(out)@ + price_json(*p));
    }
}

fn push_item(out: &mut String, item: &ItemOrderObjectPaymentsAPI)
    ensures
        final(out)@ == old(out)@ + item_json(*item),
{
    out.append("{\"amount\":");
    push_price(out, &item.amount);
    out.append(",\"name\":");
    push_json_string(out, item.name.as_str());
    out.append(",\"quantity\":");
    push_signed_decimal(out, item.quantity as i64);
    out.append("}");
    proof {
        assert(final(out)@ =~= old(out)@ + item_json(*item));
    }
}

fn push_order(out: &mut String, order: &OrderObjectPaymentsAPI)
    ensures
        final(out)@ == old(out)@ + order_json(*order),
{
    out.append("{\"items\":[");
    let ghost start = out@;
    let n = order.items.len();
    let mut i: usize = 0;
    while i < n
        invariant
            n == order.items@.len(),
            i <= n,
            out@ == start + items_json(order.items@.subrange(0, i as int)),
        decreases n - i,
    {
        if i > 0 {
            out.append(",");
        }
        push_item(out, &order.items[i]);
        proof {
            let s = order.items@.subrange(0, i + 1);
            assert(s.drop_last() =~= order.items@.subrange(0, i as int));
            assert(s.last() == order.items@[i as int]);
            if i == 0 {
                assert(order.items@.subrange(0, 0) =~= Seq::<ItemOrderObjectPaymentsAPI>::empty());
                assert(out@ =~= start + items_json(s));
            } else {
                assert(out@ =~= start + items_json(s));
            }
        }
        i += 1;
    }
    proof {
        assert(order.items@.subrange(0, n as int) =~= order.items@);
    }
    out.append("],\"status\":");
    push_json_string(out, order.status.as_str());
    out.append(",\"subtotal\":");
    push_price(out, &order.subtotal);
    out.append(",\"tax\":");
    push_price(out, &order.tax);
    out.append("}");
    proof {
        assert(final(out)@ =~= old(out)@ + order_json(*order));
    }
}

/// The interactive message asking the customer to review and pay an order.
pub open spec fn order_details_json(
    reference_id: Seq<char>,
    order: Seq<char>,
    total_amount: PriceOrderObjectPaymentsAPI,
) -> Seq<char> {
    "{\"action\":{\"name\":\"review_and_pay\",\"parameters\":{\"currency\":\"INR\",\"order\":"@
        + order
        + ",\"payment_settings\":[{\"payment_gateway\":{\"configuration_name\":\"Razorpay\",\"type\":\"razorpay\"},\"type\":\"payment_gateway\"}],\"reference_id\":"@
        + json_string(reference_id) + ",\"total_amount\":"@ + price_json(total_amount)
        + ",\"type\":\"digital-goods\"}},\"body\":{\"text\":\"Please verify the order and press pay now to proceed.\"},\"type\":\"order_details\"}"@
}

/// The interactive message that opens the order form once a document arrives.
pub open spec fn flow_interactive_json() -> Seq<char> {
    "{\"action\":{\"name\":\"flow\",\"parameters\":{\"flow_cta\":\"Place Order\",\"flow_id\":\"1005784394595435\",\"flow_message_version\":3}},\"body\":{\"text\":\"Received a document, Click the button below to place a print job.\"},\"type\":\"flow\"}"@
}

/// The image content of a message: the uploaded media's id.
pub open spec fn image_message_json(media_id: Seq<char>) -> Seq<char> {
    "{\"id\":"@ + json_string(media_id) + "}"@
}

/// The content of an image message showing the uploaded media `media_id`.
pub fn image_message(media_id: &str) -> (content: String)
    ensures
        content@ == image_message_json(media_id@),
{
    let mut out = String::from_str("{\"id\":");
    push_json_string(&mut out, media_id);
    out.append("}");
    out
}

// ---------------------------------------------------------------------------
// Outgoing messages
// ---------------------------------------------------------------------------

/// What the service sends a customer.
pub enum SendMessageType<'a> {
    Text(&'a str),
    Image(String),
    PlaceOrder(),
    CollectPayment(&'a str, OrderObjectPaymentsAPI),
}

/// The message's `type`, the key its content goes under, and the content.
pub open spec fn message_content(message: SendMessageType) -> (Seq<char>, Seq<char>, Seq<char>) {
    match message {
        SendMessageType::Text(text) => ("text"@, "text"@, text@),
        SendMessageType::Image(image) => ("image"@, "image"@, image@),
        SendMessageType::PlaceOrder() => ("interactive"@, "interactive"@, flow_interactive_json()),
        SendMessageType::CollectPayment(reference_id, order) => (
            "interactive"@,
            "interactive"@,
            order_details_json(reference_id@, order_json(order), order.subtotal),
        ),
    }
}

/// The fields of the request body that sends `message` to the number `to`.
pub open spec fn message_body(to: Seq<char>, message: SendMessageType) -> Seq<(Seq<char>, Seq<char>)> {
    let (kind, key, content) = message_content(message);
    seq![
        ("messaging_product"@, "whatsapp"@),
        ("to"@, to),
        ("recipient_type"@, "individual"@),
        ("type"@, kind),
        (key, content),
    ]
}

/// Fields taken by their characters.
pub open spec fn fields_view(fields: Seq<(String, String)>) -> Seq<(Seq<char>, Seq<char>)> {
    fields.map_values(|f: (String, String)| (f.0@, f.1@))
}

fn field(key: &str, value: String) -> (f: (String, String))
    ensures
        f.0@ == key@,
        f.1@ == value@,
{
    (String::from_str(key), value)
}

/// The fields of the request body that sends `message` to `to` through the
/// WhatsApp Cloud API.
pub fn build_message_body(to: String, message: SendMessageType<'_>) -> (fields: Vec<(String, String)>)
    ensures
        fields_view(fields@) == message_body(to@, message),
{
    let ghost spec_message = message;
    let ghost to_view = to@;
    let (kind, key, content) = match message {
        SendMessageType::Text(text) => ("text", "text", String::from_str(text)),
        SendMessageType::Image(image) => ("image", "image", image),
        SendMessageType::PlaceOrder() => ("interactive", "interactive", flow_interactive()),
        SendMessageType::CollectPayment(reference_id, order) => {
            let mut out = String::from_str(
                "{\"action\":{\"name\":\"review_and_pay\",\"parameters\":{\"currency\":\"INR\",\"order\":",
            );
            push_order(&mut out, &order);
            out.append(
                ",\"payment_settings\":[{\"payment_gateway\":{\"configuration_name\":\"Razorpay\",\"type\":\"razorpay\"},\"type\":\"payment_gateway\"}],\"reference_id\":",
            );
            push_json_string(&mut out, reference_id);
            out.append(",\"total_amount\":");
            push_price(&mut out, &order.subtotal);
            out.append(
                ",\"type\":\"digital-goods\"}},\"body\":{\"text\":\"Please verify the order and press pay now to proceed.\"},\"type\":\"order_details\"}",
            );
            proof {
                assert(out@ =~= order_details_json(reference_id@, order_json(order), order.subtotal));
            }
            ("interactive", "interactive", out)
        },
    };
    let mut fields = Vec::new();
    fields.push(field("messaging_product", String::from_str("whatsapp")));
    fields.push(field("to", to));
    fields.push(field("recipient_type", String::from_str("individual")));
    fields.push(field("type", String::from_str(kind)));
    fields.push(field(key, content));
    proof {
        assert(fields_view(fields@) =~= message_body(to_view, spec_message));
    }
    fields
}

fn flow_interactive() -> (text: String)
    ensures
        text@ == flow_interactive_json(),
{
    String::from_str(
        "{\"action\":{\"name\":\"flow\",\"parameters\":{\"flow_cta\":\"Place Order\",\"flow_id\":\"1005784394595435\",\"flow_message_version\":3}},\"body\":{\"text\":\"Received a document, Click the button below to place a print job.\"},\"type\":\"flow\"}",
    )
}


/// A plain text message body.
pub struct TextMessage {
    pub body: String,
}

impl TextMessage {
    /// The message with the given text.
    pub fn from_text(text: &str) -> (message: TextMessage)
        ensures
            message.body@ == text@,
    {
        TextMessage { body: String::from_str(text) }
    }

    /// The message as JSON.
    pub fn as_string(&self) -> (json: String)
        ensures
            json@ == "{\"body\":"@ + json_string(self.body@) + "}"@,
    {
        let mut out = String::from_str("{\"body\":");
        push_json_string(&mut out, self.body.as_str());
        out.append("}");
        out
    }
}

/// The stages an order goes through.
#[derive(Debug, Clone, Copy, PartialEq, Eq, Structural)]
pub enum OrderProgress {
    Started,
    Copies,
    Side,
    Color,
    Payment,
    Ready,
    Done,
}

// ---------------------------------------------------------------------------
// Webhook subscription
// ---------------------------------------------------------------------------

/// The subscription check succeeds when the mode is `subscribe`, the token
/// is the webhook secret, and a challenge is given; the answer is the challenge.
pub open spec fn webhook_verified(
    mode: Option<String>,
    verify_token: Option<String>,
    challenge: Option<String>,
    webhook_secret: Seq<char>,
) -> bool {
    &&& mode matches Some(m) && m@ == "subscribe"@
    &&& verify_token matches Some(t) && t@ == webhook_secret
    &&& challenge is Some
}

/// Answers WhatsApp's subscription check from the `hub.mode`,
/// `hub.verify_token` and `hub.challenge` query parameters.
pub fn verify_webhook(
    mode: Option<String>,
    verify_token: Option<String>,
    challenge: Option<String>,
    webhook_secret: &str,
) -> (result: Result<String, Error>)
    ensures
        webhook_verified(mode, verify_token, challenge, webhook_secret@) ==> (result matches Ok(c)
            && challenge == Some(c)),
        !webhook_verified(mode, verify_token, challenge, webhook_secret@) ==> result == Err::<
            String,
            Error,
        >(Error::UnprocessableEntity(Rejection::WebhookNotVerified)),
{
    let mode_ok = match &mode {
        Some(m) => text_eq(m.as_str(), "subscribe"),
        None => false,
    };
    let token_ok = match &verify_token {
        Some(t) => text_eq(t.as_str(), webhook_secret) && challenge.is_some(),
        None => false,
    };
    if mode_ok && token_ok {
        match challenge {
            Some(c) => Ok(c),
            None => Err(Error::UnprocessableEntity(Rejection::WebhookNotVerified)),
        }
    } else {
        Err(Error::UnprocessableEntity(Rejection::WebhookNotVerified))
    }
}

// ---------------------------------------------------------------------------
// Which order each customer is placing
// ---------------------------------------------------------------------------

/// The order each customer (by phone number) is currently placing.
pub struct UserOrders {
    orders: StringHashMap<u128>,
}

impl View for UserOrders {
    type V = Map<Seq<char>, u128>;

    closed spec fn view(&self) -> Map<Seq<char>, u128> {
        self.orders@
    }
}

impl UserOrders {
    /// No customer has an order yet.
    pub fn new() -> (orders: UserOrders)
        ensures
            orders@ == Map::<Seq<char>, u128>::empty(),
    {
        UserOrders { orders: StringHashMap::new() }
    }

    /// Records that `user` is now placing `order_id`, in place of any earlier order.
    pub fn record(&mut self, user: String, order_id: u128)
        ensures
            final(self)@ == old(self)@.insert(user@, order_id),
    {
        self.orders.insert(user, order_id);
    }

    /// The order `user` is placing, if any.
    pub fn order_of(&self, user: &str) -> (order_id: Option<u128>)
        ensures
            order_id == (if self@.contains_key(user@) {
                Some(self@[user@])
            } else {
                None::<u128>
            }),
    {
        match self.orders.get(user) {
            Some(id) => Some(*id),
            None => None,
        }
    }
}

/// The order looked up for a customer right after recording one for them is
/// the one recorded.
pub proof fn lemma_order_of_recorded_user(orders: Map<Seq<char>, u128>, user: Seq<char>, order_id: u128)
    ensures
        orders.insert(user, order_id).contains_key(user),
        orders.insert(user, order_id)[user] == order_id,
{
}

/// Recording an order for one customer leaves every other customer's order as it was.
pub proof fn lemma_record_keeps_other_users(
    orders: Map<Seq<char>, u128>,
    user: Seq<char>,
    order_id: u128,
    other: Seq<char>,
)
    requires
        other != user,
    ensures
        orders.insert(user, order_id).contains_key(other) == orders.contains_key(other),
        orders.contains_key(other) ==> orders.insert(user, order_id)[other] == orders[other],
{
}

// ---------------------------------------------------------------------------
// Notifications
// ---------------------------------------------------------------------------

/// What the service does with a notification.
pub enum NotificationAction {
    /// A customer sent a document.
    Document { document: EventNotificationsDocumentFb, from: String, user_name: String },
    /// A customer answered the order form.
    Interactive { response_json: String, from: String, user_name: String },
    /// A payment for the customer's order was captured.
    PaymentCaptured { recipient_id: String },
    /// Nothing to do.
    Ignore,
}

/// The kinds of `NotificationAction`.
#[derive(Debug, Clone, Copy, PartialEq, Eq, Structural)]
pub enum ActionKind {
    Document,
    Interactive,
    PaymentCaptured,
    Ignore,
}

pub open spec fn action_kind(action: NotificationAction) -> ActionKind {
    match action {
        NotificationAction::Document { .. } => ActionKind::Document,
        NotificationAction::Interactive { .. } => ActionKind::Interactive,
        NotificationAction::PaymentCaptured { .. } => ActionKind::PaymentCaptured,
        NotificationAction::Ignore => ActionKind::Ignore,
    }
}

/// A notification has a first entry with a first change.
pub open spec fn has_first_change(event: EventNotificationFb) -> bool {
    event.entry@.len() > 0 && event.entry@[0].changes@.len() > 0
}

/// The value of the first change of the first entry.
pub open spec fn first_value(event: EventNotificationFb) -> Option<EventNotificationValueFb> {
    event.entry@[0].changes@[0].value
}

/// The value carries messages (and their contacts) and at least one message.
pub open spec fn carries_message(v: EventNotificationValueFb) -> bool {
    v.messages is Some && v.contacts is Some && v.messages.unwrap()@.len() > 0
}

/// The value carries no messages (or no contacts), and its first status is
/// a captured payment.
pub open spec fn carries_capture(v: EventNotificationValueFb) -> bool {
    &&& !(v.messages is Some && v.contacts is Some)
    &&& v.statuses is Some
    &&& v.statuses.unwrap()@.len() > 0
    &&& v.statuses.unwrap()@[0].status@ == "captured"@
}

/// The first message of a value that carries one.
pub open spec fn first_message(v: EventNotificationValueFb) -> EventNotificationsMessagesFb {
    v.messages.unwrap()@[0]
}

/// The name a customer goes by: the profile name, or the fallback, without emoji.
pub open spec fn display_name(contact: EventNotificationContactFb, fallback: Seq<char>) -> Seq<char> {
    let name = match contact.profile {
        Some(p) => p.name@,
        None => fallback,
    };
    name.filter(|c: char| !is_emoji(c))
}

/// What a notification asks of the service.
pub open spec fn expected_kind(event: EventNotificationFb) -> ActionKind {
    match first_value(event) {
        None => ActionKind::Ignore,
        Some(v) => if carries_message(v) {
            if first_message(v).document is Some {
                ActionKind::Document
            } else if first_message(v).interactive is Some {
                ActionKind::Interactive
            } else {
                ActionKind::Ignore
            }
        } else if carries_capture(v) {
            ActionKind::PaymentCaptured
        } else {
            ActionKind::Ignore
        },
    }
}

/// A notification that carries a message also carries the sender's contact
/// (the first contact is read unchecked).
pub open spec fn contacts_follow_messages(event: EventNotificationFb) -> bool {
    has_first_change(event) && first_value(event) is Some && carries_message(first_value(event).unwrap())
        ==> first_value(event).unwrap().contacts.unwrap()@.len() > 0
}

/// Decides what to do with a WhatsApp notification: read the first message
/// of the first change (a document, or an answer to the order form) or,
/// when there are no messages, its first status (a captured payment).
/// `fallback_name` names a customer without a profile.
pub fn classify_notification(event: EventNotificationFb, fallback_name: String) -> (result: Result<
    NotificationAction,
    Error,
>)
    requires
        contacts_follow_messages(event),
    ensures
        !has_first_change(event) ==> (result matches Err(e) && e == Error::Internal(
            Failure::InvalidEventNotification,
        )),
        has_first_change(event) ==> (result matches Ok(a) && action_kind(a) == expected_kind(event)),
        result matches Ok(NotificationAction::Document { document, from, user_name }) ==> {
            let v = first_value(event).unwrap();
            &&& document == first_message(v).document.unwrap()
            &&& from == first_message(v).from
            &&& user_name@ == display_name(v.contacts.unwrap()@[0], fallback_name@)
        },
        result matches Ok(NotificationAction::Interactive { response_json, from, user_name }) ==> {
            let v = first_value(event).unwrap();
            &&& response_json == first_message(v).interactive.unwrap().nfm_reply.response_json
            &&& from == first_message(v).from
            &&& user_name@ == display_name(v.contacts.unwrap()@[0], fallback_name@)
        },
        ({
            let v = first_value(event).unwrap();
            has_first_change(event) && first_value(event) is Some && !(v.messages is Some
                && v.contacts is Some) && v.statuses is Some && v.statuses.unwrap()@.len() > 0
                ==> ((result matches Ok(NotificationAction::PaymentCaptured { .. }))
                <==> v.statuses.unwrap()@[0].status@ == "captured"@)
        }),
        result matches Ok(NotificationAction::PaymentCaptured { recipient_id }) ==> recipient_id
            == first_value(event).unwrap().statuses.unwrap()@[0].recipient_id,
{
    let mut entries = event.entry;
    if entries.len() == 0 {
        return Err(Error::Internal(Failure::InvalidEventNotification));
    }
    let entry = entries.swap_remove(0);
    let mut changes = entry.changes;
    if changes.len() == 0 {
        return Err(Error::Internal(Failure::InvalidEventNotification));
    }
    let change = changes.swap_remove(0);
    let value = match change.value {
        Some(v) => v,
        None => return Ok(NotificationAction::Ignore),
    };
    let statuses = value.statuses;
    match (value.messages, value.contacts) {
        (Some(messages), Some(contacts)) => {
            let mut messages = messages;
            let mut contacts = contacts;
            if messages.len() == 0 {
                return Ok(NotificationAction::Ignore);
            }
            let message = messages.swap_remove(0);
            let contact = contacts.swap_remove(0);
            let name = match contact.profile {
                Some(profile) => profile.name,
                None => fallback_name,
            };
            let user_name = demoji(name.as_str());
            match message.document {
                Some(document) => Ok(NotificationAction::Document { document, from: message.from, user_name }),
                None => match message.interactive {
                    Some(interactive) => Ok(
                        NotificationAction::Interactive {
                            response_json: interactive.nfm_reply.response_json,
                            from: message.from,
                            user_name,
                        },
                    ),
                    None => Ok(NotificationAction::Ignore),
                },
            }
        },
        _ => match statuses {
            Some(statuses) => {
                let mut statuses = statuses;
                if statuses.len() == 0 {
                    return Ok(NotificationAction::Ignore);
                }
                let status = statuses.swap_remove(0);
                if text_eq(status.status.as_str(), "captured") {
                    Ok(NotificationAction::PaymentCaptured { recipient_id: status.recipient_id })
                } else {
                    Ok(NotificationAction::Ignore)
                }
            },
            None => Ok(NotificationAction::Ignore),
        },
    }
}

// ---------------------------------------------------------------------------
// Documents and the order form
// ---------------------------------------------------------------------------

/// Only PDF documents are printed: the file name must end in `.pdf`.
pub fn require_pdf(document: &EventNotificationsDocumentFb) -> (result: Result<(), Error>)
    ensures
        result is Ok <==> ends_with_spec(document.filename@, ".pdf"@),
        result is Ok <==> (".pdf"@.len() <= document.filename@.len() && document.filename@.subrange(
            document.filename@.len() - ".pdf"@.len(),
            document.filename@.len() as int,
        ) == ".pdf"@),
        forall|stem: Seq<char>| document.filename@ == stem + ".pdf"@ ==> result is Ok,
        result matches Err(e) ==> e == Error::UnprocessableEntity(Rejection::DocumentNotPdf),
{
    if ends_with(document.filename.as_str(), ".pdf") {
        Ok(())
    } else {
        Err(Error::UnprocessableEntity(Rejection::DocumentNotPdf))
    }
}

/// The print options a customer chose on the order form.
#[derive(Debug, Clone, Copy, PartialEq, Eq, Structural)]
pub struct OrderChoice {
    pub copies: i16,
    pub is_color: bool,
    pub is_both_side: bool,
}

/// Reads the order form: the number of copies (one when it does not read
/// as an `i16`), colour when the colour field is `2`, both sides when the
/// side field is `2`.
pub fn read_order_choice(reply: &EventNotificationsInteractiveReplyPayloadFb) -> (choice: OrderChoice)
    ensures
        choice.copies == (match parse_i16_spec(reply.copies@) {
            Some(c) => c,
            None => 1i16,
        }),
        choice.is_color == (reply.color@ == "2"@),
        choice.is_both_side == (reply.side@ == "2"@),
{
    let copies = match parse_i16(reply.copies.as_str()) {
        Some(c) => c,
        None => 1,
    };
    let is_color = text_eq(reply.color.as_str(), "2");
    let is_both_side = text_eq(reply.side.as_str(), "2");
    OrderChoice { copies, is_color, is_both_side }
}

/// Finds the catalogue entry for a print option and reads its name and
/// price; `Could not find item` when the entry is missing or unreadable.
pub fn resolve_razorpay_item(items: &HashMap<u8, String>, item_type: ItemType) -> (result: Result<
    RazorpayItem,
    Error,
>)
    ensures
        !items@.contains_key(item_type.spec_key()) ==> (result matches Err(e) && e == Error::Internal(
            Failure::ItemNotFound,
        )),
        items@.contains_key(item_type.spec_key()) ==> {
            let entry = items@[item_type.spec_key()]@;
            &&& result is Ok <==> exists|i: int|
                is_last_colon(entry, i) && parse_i32_spec(entry.subrange(i + 1, entry.len() as int)) is Some
            &&& result matches Err(e) ==> e == Error::Internal(Failure::ItemNotFound)
            &&& forall|i: int|
                is_last_colon(entry, i) ==> (result matches Ok(it) ==> it.name@ == entry.subrange(0, i)
                    && Some(it.price) == parse_i32_spec(entry.subrange(i + 1, entry.len() as int)))
        },
{
    broadcast use vstd::std_specs::hash::group_hash_axioms;
    let key = item_type.key();
    match items.get(&key) {
        Some(entry) => match RazorpayItem::from_entry(entry.as_str()) {
            Some(item) => Ok(item),
            None => Err(Error::Internal(Failure::ItemNotFound)),
        },
        None => Err(Error::Internal(Failure::ItemNotFound)),
    }
}

/// The number of pages of a PDF document, kept to its low eight bits as a
/// `u8` cast does; `NotFound` when the bytes do not load as a PDF.
pub fn count_pdf_pages(document: &[u8]) -> (result: Result<u8, Error>)
    ensures
        match pdf_page_count_spec(document@) {
            Some(n) => result == Ok::<u8, Error>((n % 256) as u8),
            None => result == Err::<u8, Error>(Error::NotFound),
        },
{
    match pdf_page_count(document) {
        Some(n) => Ok((n % 256) as u8),
        None => Err(Error::NotFound),
    }
}

/// The reference a payment request carries: the first 31 characters of
/// the order id's hyphenated form.
pub fn payment_reference(order_id: u128) -> (reference: String)
    ensures
        reference@ == uuid_hyphenated(order_id).subrange(0, 31),
{
    let id = uuid_text(order_id);
    String::from_str(id.as_str().substring_char(0, 31))
}

/// The fields of the message asking `to` to pay for `copies` copies of a
/// `pages`-page document at the item's price per page.
pub open spec fn payment_request_spec(
    to: Seq<char>,
    order_id: u128,
    name: Seq<char>,
    price: int,
    copies: int,
    pages: int,
) -> Seq<(Seq<char>, Seq<char>)> {
    let subtotal = PriceOrderObjectPaymentsAPI { value: (price * (copies * pages)) as i32, offset: 100 };
    let line = item_json_parts(
        name,
        PriceOrderObjectPaymentsAPI { value: (price * pages) as i32, offset: 100 },
        copies as i32,
    );
    let order = order_json_parts(
        line,
        "pending"@,
        subtotal,
        PriceOrderObjectPaymentsAPI { value: 0, offset: 100 },
    );
    seq![
        ("messaging_product"@, "whatsapp"@),
        ("to"@, to),
        ("recipient_type"@, "individual"@),
        ("type"@, "interactive"@),
        ("interactive"@, order_details_json(uuid_hyphenated(order_id).subrange(0, 31), order, subtotal)),
    ]
}

/// The message asking a customer to pay for their order.
pub fn payment_request(to: String, order_id: u128, item: RazorpayItem, copies: i16, pages: u8) -> (fields: Vec<
    (String, String),
>)
    requires
        order_fits(item.price as int, copies as int, pages as int),
    ensures
        fields_view(fields@) == payment_request_spec(
            to@,
            order_id,
            item.name@,
            item.price as int,
            copies as int,
            pages as int,
        ),
        fields@.len() == 5,
        fields@[4].0@ == "interactive"@,
        exists|o: OrderObjectPaymentsAPI|
            #![trigger order_json(o)]
            {
                &&& o.subtotal == (PriceOrderObjectPaymentsAPI {
                    value: (item.price * (copies * pages)) as i32,
                    offset: 100,
                })
                &&& o.tax == (PriceOrderObjectPaymentsAPI { value: 0, offset: 100 })
                &&& o.status@ == "pending"@
                &&& o.items@.len() == 1
                &&& o.items@[0].name@ == item.name@
                &&& o.items@[0].quantity == copies as i32
                &&& o.items@[0].amount == (PriceOrderObjectPaymentsAPI {
                    value: (item.price * pages) as i32,
                    offset: 100,
                })
                &&& fields@[4].1@ == order_details_json(
                    uuid_hyphenated(order_id).subrange(0, 31),
                    order_json(o),
                    o.subtotal,
                )
            },
{
    let ghost name = item.name@;
    let ghost price = item.price as int;
    let reference = payment_reference(order_id);
    let order = OrderObjectPaymentsAPI::new(item, copies, pages as i16);
    proof {
        assert(order.items@.len() == 1);
        assert(items_json(order.items@) == item_json(order.items@[0]));
    }
    let ghost order_view = order;
    let fields = build_message_body(to, SendMessageType::CollectPayment(reference.as_str(), order));
    proof {
        assert(order_json(order_view) == order_json_parts(
            item_json_parts(
                name,
                PriceOrderObjectPaymentsAPI { value: (price * (pages as int)) as i32, offset: 100 },
                copies as i32,
            ),
            "pending"@,
            order_view.subtotal,
            order_view.tax,
        ));
        assert(fields_view(fields@).len() == 5);
        assert(fields@.len() == 5);
        assert(fields_view(fields@)[4] == (fields@[4].0@, fields@[4].1@));
        assert(fields@[4].1@ == order_details_json(
            uuid_hyphenated(order_id).subrange(0, 31),
            order_json(order_view),
            order_view.subtotal,
        ));
    }
    fields
}

/// A payment request asks for exactly what the order costs: its
/// `total_amount`, and the subtotal of the order it shows, are the price
/// per page times copies times pages in paise (offset 100), with no tax and
/// a single pending line of one copy's price per copy.
pub proof fn lemma_payment_request_asks_for_the_order_subtotal(
    to: Seq<char>,
    order_id: u128,
    name: Seq<char>,
    price: i32,
    copies: i16,
    pages: u8,
)
    requires
        order_fits(price as int, copies as int, pages as int),
    ensures
        ({
            let total = PriceOrderObjectPaymentsAPI { value: (price * (copies * pages)) as i32, offset: 100 };
            let line = item_json_parts(
                name,
                PriceOrderObjectPaymentsAPI { value: (price * pages) as i32, offset: 100 },
                copies as i32,
            );
            &&& total.value == price * copies * pages
            &&& payment_request_spec(to, order_id, name, price as int, copies as int, pages as int).len() == 5
            &&& payment_request_spec(to, order_id, name, price as int, copies as int, pages as int)[4] == (
                "interactive"@,
                order_details_json(
                    uuid_hyphenated(order_id).subrange(0, 31),
                    order_json_parts(line, "pending"@, total, PriceOrderObjectPaymentsAPI { value: 0, offset: 100 }),
                    total,
                ),
            )
        }),
{
    let (p, c, n) = (price as int, copies as int, pages as int);
    assert(p * (c * n) == p * c * n) by (nonlinear_arith);
}

// ---------------------------------------------------------------------------
// Invoices
// ---------------------------------------------------------------------------

/// What an invoice request needs to know of an order.
pub struct InvoiceOrderDetails {
    pub order_id: String,
    pub document_id: String,
    pub from_number: String,
    pub user_name: String,
    pub copies: i16,
    pub item: String,
}

/// The JSON body of a Razorpay invoice for an order: the customer, a
/// description naming the order, and one line of the catalogue item for
/// copies times pages.
pub open spec fn invoice_body_json(order: InvoiceOrderDetails, page_number: int) -> Seq<char> {
    "{\"customer\":{\"contact\":"@ + json_string(order.from_number@) + ",\"name\":"@ + json_string(
        order.user_name@,
    ) + "},\"description\":"@ + json_string("Payment invoice for scanox order id "@ + order.order_id@)
        + ",\"line_items\":[{\"item_id\":"@ + json_string(order.item@) + ",\"quantity\":"@ + signed_decimal(
        order.copies * page_number,
    ) + "}],\"type\":\"invoice\"}"@
}

/// Writes the invoice request for an order of a `page_number`-page document.
pub fn invoice_request_body(order: &InvoiceOrderDetails, page_number: u8) -> (body: String)
    requires
        i16::MIN <= order.copies * page_number <= i16::MAX,
    ensures
        body@ == invoice_body_json(*order, page_number as int),
{
    let mut description = String::from_str("Payment invoice for scanox order id ");
    description.append(order.order_id.as_str());
    let quantity: i16 = order.copies * page_number as i16;
    let mut out = String::from_str("{\"customer\":{\"contact\":");
    push_json_string(&mut out, order.from_number.as_str());
    out.append(",\"name\":");
    push_json_string(&mut out, order.user_name.as_str());
    out.append("},\"description\":");
    push_json_string(&mut out, description.as_str());
    out.append(",\"line_items\":[{\"item_id\":");
    push_json_string(&mut out, order.item.as_str());
    out.append(",\"quantity\":");
    push_signed_decimal(&mut out, quantity as i64);
    out.append("}],\"type\":\"invoice\"}");
    proof {
        assert(out@ =~= invoice_body_json(*order, page_number as int));
    }
    out
}

/// The hyphenated text of an order id, as `Uuid::to_string` writes it.
pub fn order_id_text(order_id: u128) -> (text: String)
    ensures
        text@ == uuid_hyphenated(order_id),
{
    uuid_text(order_id)
}

/// Whether a notification satisfies `contacts_follow_messages`, for callers
/// to test before `classify_notification`.
pub fn has_sender_contact(event: &EventNotificationFb) -> (ok: bool)
    ensures
        ok == contacts_follow_messages(*event),
{
    if event.entry.len() == 0 || event.entry[0].changes.len() == 0 {
        return true;
    }
    match &event.entry[0].changes[0].value {
        Some(v) => match (&v.messages, &v.contacts) {
            (Some(messages), Some(contacts)) => messages.len() == 0 || contacts.len() > 0,
            _ => true,
        },
        None => true,
    }
}

/// Whether the arithmetic of a payment request fits its integer types, for
/// callers to test before `payment_request`.
pub fn payment_fits(item: &RazorpayItem, copies: i16, pages: u8) -> (ok: bool)
    ensures
        ok == order_fits(item.price as int, copies as int, pages as int),
{
    proof {
        let (c, p, x) = (copies as int, pages as int, item.price as int);
        assert(-32768 * 255 <= c * p <= 32767 * 255) by (nonlinear_arith)
            requires
                -32768 <= c <= 32767,
                0 <= p <= 255,
        ;
        assert(-2147483648 * 255 <= x * p <= 2147483647 * 255) by (nonlinear_arith)
            requires
                -2147483648 <= x <= 2147483647,
                0 <= p <= 255,
        ;
    }
    let sheets: i64 = copies as i64 * pages as i64;
    let per_copy: i64 = item.price as i64 * pages as i64;
    if sheets < -32768 || sheets > 32767 {
        return false;
    }
    proof {
        let (s, x) = (sheets as int, item.price as int);
        assert(-2147483648 * 32768 <= x * s <= 2147483648 * 32768) by (nonlinear_arith)
            requires
                -2147483648 <= x <= 2147483647,
                -32768 <= s <= 32767,
        ;
    }
    let total: i64 = item.price as i64 * sheets;
    per_copy >= -2147483648 && per_copy <= 2147483647 && total >= -2147483648 && total <= 2147483647
}

/// Whether the quantity of an invoice fits an `i16`, for callers to test
/// before `invoice_request_body`.
pub fn invoice_fits(order: &InvoiceOrderDetails, page_number: u8) -> (ok: bool)
    ensures
        ok == (i16::MIN <= order.copies * page_number <= i16::MAX),
{
    proof {
        let (c, p) = (order.copies as int, page_number as int);
        assert(-32768 * 255 <= c * p <= 32767 * 255) by (nonlinear_arith)
            requires
                -32768 <= c <= 32767,
                0 <= p <= 255,
        ;
    }
    let quantity: i64 = order.copies as i64 * page_number as i64;
    quantity >= -32768 && quantity <= 32767
}

/// Only a first status reading exactly `captured` is a payment: a
/// notification without messages whose first status reads anything else
/// asks for nothing.
pub proof fn lemma_only_captured_status_is_a_payment(event: EventNotificationFb)
    requires
        has_first_change(event),
        first_value(event) is Some,
        !(first_value(event).unwrap().messages is Some && first_value(event).unwrap().contacts is Some),
        first_value(event).unwrap().statuses is Some,
        first_value(event).unwrap().statuses.unwrap()@.len() > 0,
    ensures
        expected_kind(event) == ActionKind::PaymentCaptured
            <==> first_value(event).unwrap().statuses.unwrap()@[0].status@ == "captured"@,
        first_value(event).unwrap().statuses.unwrap()@[0].status@ != "captured"@ ==> expected_kind(event)
            == ActionKind::Ignore,
{
}

/// Every file name made of some text followed by `.pdf` is accepted,
/// whatever the text holds (further dots included).
pub proof fn lemma_any_name_ending_in_pdf_is_accepted(stem: Seq<char>)
    ensures
        ends_with_spec(stem + ".pdf"@, ".pdf"@),
{
    crate::http::text::lemma_ends_with_own_suffix(stem, ".pdf"@);
}

} // verus!
