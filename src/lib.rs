//! Phone-verification records: the record model, request validation, the
//! upsert-by-username decision over a newest-first record table, and the
//! response envelopes that the HTTP layer sends back.
pub mod model;
pub mod service;
pub mod store;
pub mod lemmas;
pub mod validation;
pub mod response;
pub mod config;
