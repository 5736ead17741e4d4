//! Verified core of a data-integration service: it maps records of a business
//! API onto database rows, keeps the chat history of report requests, and writes
//! the report texts.

pub mod api;
pub mod calendar;
pub mod chat;
pub mod invoices;
pub mod json;
pub mod orders;
pub mod products;
pub mod schedule;
pub mod stock;
pub mod text;
pub mod web;
