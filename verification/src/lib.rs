//! Core of a multi-tenant gateway in front of S3-compatible object stores.
//!
//! A request names a tenant and an object key. The tenant is looked up in a
//! registry of configured backends, and the object is delivered either by a
//! redirect to a presigned URL or by streaming its bytes, as the tenant's
//! configuration says.

pub mod config;
pub mod error;
pub mod response;
pub mod routes;
pub mod s3;
pub mod sdk;
pub mod serve;
