//! Sakaloka identity, access-control and domain logic, verified with Verus.
use vstd::prelude::*;

pub mod accounts;
pub mod ai;
pub mod data;
pub mod domain;
pub mod error;
pub mod guard;
pub mod hal;
pub mod ids;
pub mod jwt;
pub mod newtypes;
pub mod password;
pub mod permission;
pub mod push;
pub mod queries;
pub mod rbac;
pub mod sync;
pub mod text;
pub mod tokens;
pub mod vault;

verus! {
}
