//! Authentication gateway: password hashing, credential and session storage,
//! and the forward-auth decision that reverse proxies rely on.

pub mod gateway;
pub mod hasher;
pub mod laws;
pub mod pages;
pub mod sessions;
pub mod store;
