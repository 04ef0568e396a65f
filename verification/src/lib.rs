use vstd::prelude::*;

pub mod auth;
pub mod capabilities;
pub mod config;
pub mod device;
pub mod error;
pub mod i18n;
pub mod json;
pub mod outside;
pub mod paths;
pub mod permissions;
pub mod policy;
pub mod protocol;
pub mod text;
pub mod ws;

verus! {
} // verus!
