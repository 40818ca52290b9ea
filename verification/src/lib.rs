//! Order handling for a WhatsApp document-printing service: webhook
//! decisions, payment requests, and encrypted QR codes that a print shop
//! verifies before it hands out a job.
pub mod config;
pub mod http;
