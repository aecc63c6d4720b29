//! Protocol modes: each handles the IN frames of one phase of the session.
pub mod standard;
pub mod connect;
pub mod reconfigure_x1;
pub mod await_post_bootstrap_settle;
pub mod request_preset;
