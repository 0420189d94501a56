//! Verified core of the Templo Sagrado attendance platform: the rules that
//! decide what the web server, its websockets and its mail service do.

pub mod accounts;
pub mod admin;
pub mod attend;
pub mod auth;
pub mod chat;
pub mod clerks;
pub mod dates;
pub mod logs;
pub mod mail;
pub mod models;
pub mod numbers;
pub mod pages;
pub mod products;
pub mod sales;
pub mod secrets;
pub mod sitemap;
pub mod slug;
pub mod stats;
pub mod status;
pub mod testimonials;
pub mod text;
pub mod uploads;
