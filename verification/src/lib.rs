//! The application layer of the Captain.Food ordering platform: command decisions, process-manager
//! legs, in-memory stores and the small codecs they share, each stated and proved in Verus.

pub mod text;
pub mod errors;
pub mod ports;
pub mod outside;
pub mod quota;
pub mod email_guard;
pub mod journal;
pub mod lanes;
pub mod auth_sessions;
pub mod model;
pub mod pricing;
pub mod cart;
pub mod pm_state;
pub mod checkout;
pub mod checkout_flow;
pub mod process_managers;
pub mod dispatch_strategy;
pub mod delivery_dispatch;
pub mod read_models;
pub mod payment_legs;
pub mod refunds;
pub mod commands;
pub mod mailbox;
pub mod dispatch;
pub mod deliveries;
pub mod cart_binding;
pub mod delivery_jobs;
pub mod riders;
pub mod orders;
pub mod restaurants;
pub mod conversations;
pub mod reclamations;
pub mod catalogs;
pub mod customers;
pub mod prospects;
