//! Life-cycle management proxy for edge applications: validation of the
//! ETSI MEC device-application messages, a reference-URI resolver, an
//! admission-controlled store of application contexts and a filter over a
//! static catalog of application descriptors.
#![allow(non_snake_case)]

pub mod config;
pub mod contexts;
pub mod describe;
pub mod error;
pub mod filter;
pub mod ids;
pub mod messages;
pub mod resolver;
pub mod server;
pub mod text;
pub mod validate;
