//! Token-based authentication and authorization core: signed claim-token
//! issuance and verification, role-scoped request guarding, password
//! hashing, and the bounded connection-pool gate that mediates access to
//! the relational store.

#![allow(non_camel_case_types)]

pub mod codec;
pub mod db;
pub mod hasher;
pub mod hex;
pub mod role;
pub mod project;
pub mod status;
pub mod token;
pub mod user;
