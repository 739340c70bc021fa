//! The HTTPS ingress: what the server decides for each request, and what it
//! tells the local network of itself.

pub mod handlers;
pub mod identity;
pub mod mdns_service;
