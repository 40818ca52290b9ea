# scanox_backend

The order logic of a WhatsApp-based document printing service, written in
Verus and proved against its contracts.

- `src/http/razorpay.rs` seals an order's QR payload with AES-256-GCM and
  opens it again; a sealed payload provably opens to the text it was made from.
- `src/http/orders.rs` decides who may call the print shop's endpoints and
  whether a scanned QR code is good for its order (paid, not collected, at
  most a day old).
- `src/http/whatsapp.rs` builds every message the service sends, the payment
  request of an order, and decides what each WhatsApp notification asks for;
  it also keeps which order each customer is placing.
- `src/http/text.rs` holds decimal rendering, JSON string literals and
  decimal parsing with Rust's `FromStr` grammar.
- `src/http/external.rs` holds every call into an outside crate, each with
  the contract the rest of the library relies on.
- `app/` is the HTTP server (axum, sqlx, reqwest): it reads requests, talks
  to the database and the WhatsApp and Razorpay APIs, and hands plain values
  to the library.
