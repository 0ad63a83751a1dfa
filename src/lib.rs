//! Core of a terminal client for a member billing and vending service: the
//! currency type, the product search ranking, the modal mode stack and the
//! decisions that drive purchases, parking registration and account loading.

pub mod money;
pub mod text;
pub mod decimal;
pub mod models;
pub mod search;
pub mod error;
pub mod config;
pub mod state;
pub mod formatters;
pub mod html;
pub mod validation;
pub mod modals;
pub mod catalog;
pub mod actions;
pub mod navigation;
pub mod events;
pub mod layout;
pub mod vehicle;
