//! What the operations promise, stated over what goes into a call and what comes
//! out of it, and over how the results of two calls relate. In each law,
//! `call_ensures(f, arguments, r)` says that a call of `f` may return `r`.

pub mod access;
pub mod answers;
pub mod conversation;
pub mod dates;
pub mod moderation;
pub mod parts;
pub mod posting;
pub mod script;
pub mod views;
pub mod words;
