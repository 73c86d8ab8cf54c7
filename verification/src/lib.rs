//! Verified core of the eSIM service vendor: parsing of balances and IMSIs,
//! the decisions behind the Telegram notifications, the extension balance
//! bookkeeping and the step machines that drive the extension requests.

pub mod balance;
pub mod cache;
pub mod controller;
pub mod database;
pub mod decimal;
pub mod extension;
pub mod extension_add;
pub mod extension_delete;
pub mod extension_query;
pub mod location;
pub mod reply;
pub mod routes;
pub mod telegram;
pub mod text;
