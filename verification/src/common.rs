pub mod access_log;
pub mod call_counter;
pub mod codec;
pub mod crypto;
pub mod handler_name;
pub mod idempotency;
pub mod key_provider;
pub mod nano_id;
pub mod qs_query;
pub mod text;
pub mod types;
pub mod validators;
pub mod versioned_update;
