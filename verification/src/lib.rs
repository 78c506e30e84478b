//! A verified model of libcurl's "easy" interface.
//!
//! The library decides, for every operation of an easy handle, which
//! `curl_easy_setopt` calls must be made and with which values, and it
//! interprets what libcurl answers (`CURLcode`s, `curl_easy_getinfo`
//! results, callback outcomes). The calls into libcurl itself are made by
//! the caller, who hands the answers back to the functions here.

pub mod sys;
pub mod error;
pub mod list;
pub mod easy;

pub use error::Error;
pub use list::{List, Iter};
