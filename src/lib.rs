//! Cart-line discount eligibility for framed-print promotions.
//!
//! `classify` holds the classifier, `config` the promotions it is run with,
//! `cart` and `decision` its input and output, and `laws` what is proved of
//! the decisions it makes.

pub mod cart;
pub mod classify;
pub mod config;
pub mod decision;
pub mod laws;
