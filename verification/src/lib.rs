//! Comment threads for web pages: visitors post comments, an administrator
//! moderates them. The crate decides what every request is answered with and
//! which statements reach the comment store; it performs no I/O itself.

pub mod admin;
pub mod assets;
pub mod auth;
pub mod author;
pub mod badge;
pub mod comments;
pub mod ids;
pub mod laws;
pub mod listing;
pub mod markup;
pub mod models;
pub mod pages;
pub mod reply;
pub mod rows;
pub mod store;
pub mod table;
pub mod templates;
pub mod text;
pub mod threads;
pub mod time;
pub mod widget;
