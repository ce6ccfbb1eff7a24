//! A URL shortener: long URLs are stored under short codes and found again by
//! them. Every function here carries a contract over the mappings that a
//! repository holds, seen as a mathematical map from code to canonical URL.

pub mod adapters;
pub mod app;
pub mod di;
pub mod error;
pub mod httpapi;
pub mod id_provider;
