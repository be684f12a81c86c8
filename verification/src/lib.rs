//! Light Stripe: a verified core for a terminal dashboard of listening ports,
//! developer processes, Docker containers and volumes.
pub mod text;
pub mod marks;
pub mod models;
pub mod config;
pub mod app;
pub mod search;
pub mod table;
pub mod actions;
pub mod jump;
pub mod events;
pub mod worker;
pub mod order;
pub mod collectors;
pub mod screen;
pub mod panes;
pub mod laws;
