//! A Kubernetes operator that manages OIDC applications and roles in a
//! Zitadel project through custom resources.
//!
//! This is what the operator decides and computes. Whatever it does to the
//! world (to the cluster, to Zitadel and to zapp, which hands out the
//! credential) is asked for step by step and done by the caller, who reports
//! back what came of it.

pub mod address;
pub mod application;
pub mod application_reconcile;
pub mod config;
pub mod controller;
pub mod crd;
pub mod failure;
pub mod json;
pub mod kubernetes;
pub mod oidc;
pub mod role;
pub mod role_reconcile;
pub mod settings;
pub mod text;
pub mod time;
pub mod zapp;
pub mod zitadel;
