use vstd::prelude::*;

verus! {

/// A WhatsApp contact's profile.
pub struct EventNotificationsContactProfileFb {
    pub name: String,
}

/// The contact a WhatsApp notification comes from.
pub struct EventNotificationContactFb {
    pub wa_id: String,
    pub user_id: Option<String>,
    pub profile: Option<EventNotificationsContactProfileFb>,
}

/// An error WhatsApp reports in a notification.
pub struct EventNotificationErrorsFb {
    pub code: i32,
    pub title: String,
    pub message: String,
}

/// The details of a reported error.
pub struct ErrorData {
    pub details: String,
}

/// A quick-reply button a customer pressed.
pub struct EventNotificationsButtonFb {
    pub payload: String,
    pub text: String,
}

/// Where a message was forwarded from.
pub struct EventNotificationsContextFb {
    pub forwarded: bool,
    pub frequently_forwarded: bool,
    pub from: String,
    pub id: String,
}

/// A document a customer sent.
pub struct EventNotificationsDocumentFb {
    pub caption: Option<String>,
    pub filename: String,
    pub sha256: String,
    pub mime_type: String,
    pub id: String,
}

/// An image a customer sent.
pub struct EventNotificationsImageFb {
    pub caption: Option<String>,
    pub sha256: String,
    pub id: String,
    pub mime_type: String,
}

/// The reply button of an interactive message.
pub struct EventNotificationsButtonReplyFb {
    pub id: String,
    pub title: String,
}

/// The list entry of an interactive message.
pub struct EventNotificationsListReplyFb {
    pub id: String,
    pub title: String,
    pub description: String,
}

/// The kind of an interactive reply.
pub struct EventNotificationsInteractiveTypeFb {
    pub button_reply: Option<EventNotificationsButtonReplyFb>,
    pub list_reply: Option<EventNotificationsListReplyFb>,
}

/// The answer of a WhatsApp flow: the form's fields as JSON text.
pub struct EventNotificationsNfmReplyFb {
    pub response_json: String,
}

/// An interactive reply; `kind` is the notification's `type` field.
pub struct EventNotificationsInteractiveFb {
    pub kind: Option<EventNotificationsInteractiveTypeFb>,
    pub nfm_reply: EventNotificationsNfmReplyFb,
}

/// The fields of the order form: number of copies, colour choice, sides choice.
pub struct EventNotificationsInteractiveReplyPayloadFb {
    pub copies: String,
    pub color: String,
    pub side: String,
}

/// A text message.
pub struct EventNotificationsTextFb {
    pub body: String,
}

/// A message a customer sent; `kind` is the notification's `type` field.
pub struct EventNotificationsMessagesFb {
    pub from: String,
    pub id: String,
    pub timestamp: String,
    pub kind: String,
    pub button: Option<EventNotificationsButtonFb>,
    pub interactive: Option<EventNotificationsInteractiveFb>,
    pub text: Option<EventNotificationsTextFb>,
    pub document: Option<EventNotificationsDocumentFb>,
}

/// The delivery or payment status of an earlier message.
pub struct EventNotificationStatusFb {
    pub status: String,
    pub recipient_id: String,
}

/// What changed: the messages with their contacts, or statuses.
pub struct EventNotificationValueFb {
    pub contacts: Option<Vec<EventNotificationContactFb>>,
    pub messaging_product: String,
    pub messages: Option<Vec<EventNotificationsMessagesFb>>,
    pub statuses: Option<Vec<EventNotificationStatusFb>>,
}

/// One change of a notification.
pub struct EventNotificationChangesFb {
    pub field: String,
    pub value: Option<EventNotificationValueFb>,
}

/// One entry of a notification.
pub struct EventNotificationEntryFb {
    pub id: String,
    pub changes: Vec<EventNotificationChangesFb>,
}

/// A WhatsApp webhook notification.
pub struct EventNotificationFb {
    pub object: String,
    pub entry: Vec<EventNotificationEntryFb>,
}

/// The print options that select a catalogue entry: black and white or
/// colour, one side or both sides.
#[derive(Debug, Clone, Copy, PartialEq, Eq, Hash, Structural)]
pub enum ItemType {
    BW,
    BWT,
    C,
    CT,
}

impl ItemType {
    pub open spec fn spec_from(color: bool, both_side: bool) -> ItemType {
        match (color, both_side) {
            (false, false) => ItemType::BW,
            (false, true) => ItemType::BWT,
            (true, false) => ItemType::C,
            (true, true) => ItemType::CT,
        }
    }

    /// The option for a colour choice and a sides choice.
    pub fn from(color: bool, both_side: bool) -> (item: Self)
        ensures
            item == Self::spec_from(color, both_side),
    {
        match (color, both_side) {
            (false, false) => Self::BW,
            (false, true) => Self::BWT,
            (true, false) => Self::C,
            (true, true) => Self::CT,
        }
    }

    pub open spec fn spec_key(self) -> u8 {
        match self {
            ItemType::BW => 0,
            ItemType::BWT => 1,
            ItemType::C => 2,
            ItemType::CT => 3,
        }
    }

    /// The number under which the option is kept in the catalogue map.
    pub fn key(&self) -> (k: u8)
        ensures
            k == self.spec_key(),
    {
        match self {
            ItemType::BW => 0,
            ItemType::BWT => 1,
            ItemType::C => 2,
            ItemType::CT => 3,
        }
    }
}

/// Different options are kept under different keys.
pub proof fn lemma_item_keys_distinct(a: ItemType, b: ItemType)
    ensures
        a.spec_key() == b.spec_key() <==> a == b,
{
}

/// Each combination of colour and sides selects its own option.
pub proof fn lemma_item_type_from_injective(c1: bool, s1: bool, c2: bool, s2: bool)
    ensures
        ItemType::spec_from(c1, s1) == ItemType::spec_from(c2, s2) <==> (c1 == c2 && s1 == s2),
{
}

} // verus!
