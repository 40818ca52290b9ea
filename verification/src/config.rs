use vstd::prelude::*;

verus! {

/// The settings the service starts with: connection strings, credentials,
/// the catalogue entries that are charged for each print option, and the port.
///
/// Each catalogue entry (`item_bw`, `item_bw_t`, `item_c`, `item_c_t`) is
/// written `name:price`: the item's name, a colon, and its price per page in
/// paise as a decimal `i32` (see `RazorpayItem::from_entry`).
pub struct Config {
    pub database_url: String,
    pub aes_key: String,
    pub whatsapp_token: String,
    pub razorpay_key_id: String,
    pub razorpay_key_secret: String,
    pub item_bw: String,
    pub item_bw_t: String,
    pub item_c: String,
    pub item_c_t: String,
    pub webhook_secret: String,
    pub client_secret: String,
    pub port: String,
}

} // verus!
