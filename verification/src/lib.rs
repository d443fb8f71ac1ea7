//! A small S3-compatible object store: the domain model, the decisions of
//! its services and the shape of its HTTP answers, each with a contract.

pub mod application;
pub mod domain;
pub mod http;
pub mod infrastructure;
