//! Discovery, listing and conversion of policy-engine custom resources.
//!
//! The crate models a schema-less cluster resource as a [`document::DocValue`]
//! payload with identity metadata, resolves which resource kinds currently
//! back a logical API group, aggregates per-kind list results while
//! tolerating per-kind failures, and converts each generic object into one
//! of the strongly-typed records of [`gatekeeper`].

pub mod client;
pub mod convert;
pub mod discovery;
pub mod document;
pub mod gatekeeper;
pub mod lister;
pub mod page;
