pub mod error;
pub mod external;
pub mod orders;
pub mod razorpay;
pub mod text;
pub mod types;
pub mod whatsapp;

use crate::config::Config;
use external::{base64_decode, base64_decode_spec};
use razorpay::AesKey;
use std::collections::HashMap;
use types::ItemType;
use vstd::prelude::*;

verus! {

broadcast use vstd::std_specs::hash::group_hash_axioms;

/// A customer's WhatsApp number.
pub type UserNumer = String;

/// An order's UUID as its 128-bit value.
pub type OrderId = u128;

/// The catalogue entries keyed by `ItemType::key`: the one configured for
/// each combination of colour and sides.
pub open spec fn razorpay_items_view(config: &Config) -> Map<u8, String> {
    map![
        ItemType::BW.spec_key() => config.item_bw,
        ItemType::BWT.spec_key() => config.item_bw_t,
        ItemType::C.spec_key() => config.item_c,
        ItemType::CT.spec_key() => config.item_c_t,
    ]
}

/// Builds the map from print option to the configured catalogue entry.
pub fn get_razorpay_items(config: &Config) -> (items: HashMap<u8, String>)
    ensures
        items@ == razorpay_items_view(config),
{
    let mut items: HashMap<u8, String> = HashMap::new();
    items.insert(ItemType::BW.key(), config.item_bw.clone());
    items.insert(ItemType::BWT.key(), config.item_bw_t.clone());
    items.insert(ItemType::C.key(), config.item_c.clone());
    items.insert(ItemType::CT.key(), config.item_c_t.clone());
    items
}

/// Every combination of colour and sides has a catalogue entry, so the
/// lookup made for an order's options never misses.
pub proof fn lemma_every_item_type_is_priced(config: &Config, color: bool, both_side: bool)
    ensures
        razorpay_items_view(config).contains_key(ItemType::spec_from(color, both_side).spec_key()),
{
}

/// The configured AES key decodes from base64 to 32 bytes.
pub open spec fn aes_key_loadable(config: &Config) -> bool {
    base64_decode_spec(config.aes_key@) matches Some(k) && k.len() == 32
}

/// Reads the configured base64 AES key, which must decode to 32 bytes
/// (`Key::from_slice` panics on other lengths).
pub fn load_aes_key(config: &Config) -> (key: AesKey)
    requires
        aes_key_loadable(config),
    ensures
        base64_decode_spec(config.aes_key@) == Some(key@),
{
    match base64_decode(config.aes_key.as_str()) {
        Some(bytes) => match AesKey::from_bytes(bytes) {
            Some(key) => key,
            None => vstd::pervasive::unreached(),
        },
        None => vstd::pervasive::unreached(),
    }
}

/// Reads the configured AES key as `load_aes_key` does, and answers nothing
/// where it does not decode to 32 bytes.
pub fn try_load_aes_key(config: &Config) -> (key: Option<AesKey>)
    ensures
        key is Some <==> aes_key_loadable(config),
        key matches Some(k) ==> base64_decode_spec(config.aes_key@) == Some(k@),
{
    match base64_decode(config.aes_key.as_str()) {
        Some(bytes) => {
            if bytes.len() == 32 {
                Some(load_aes_key(config))
            } else {
                None
            }
        },
        None => None,
    }
}

} // verus!
