//! The verified core of a clipboard-history manager: a bounded entry store
//! with three-level display ordering, filtering, pagination and a
//! capacity-based eviction rule; role and provider-settings stores with
//! preset protections; translation-request signing and validation; the
//! line-oriented streamed chat relay; and the clipboard poller's decision
//! logic. File persistence, HTTP transport and the window shell live with
//! the embedding application.

pub mod ai_roles;
pub mod ai_service;
pub mod entry;
pub mod errors;
pub mod ids;
pub mod media;
pub mod poller;
pub mod presets;
pub mod relay;
pub mod roles;
pub mod settings;
pub mod store;
pub mod text;
pub mod translation;
