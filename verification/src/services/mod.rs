//! Decisions of the service layer. Each service's storage work is done by
//! the caller; these functions take what storage returned and decide.

pub mod account_service;
pub mod event_service;
pub mod invite_service;
pub mod notification_service;
pub mod user_service;
