//! Compile-time code-generation cores for two source-to-source transforms:
//! a builder generator that turns a record definition into a plan for an
//! incremental, validated construction type, and an order checker that
//! verifies the variants of an enum definition are declared in lexicographic
//! order.
//!
//! Both transforms work on a small structural model of the host language's
//! syntax ([`ast`]); reading real syntax trees into that model and rendering
//! results back out is the host boundary and stays outside this crate.

pub mod ast;
pub mod builder;
pub mod laws;
pub mod meta;
pub mod order;
pub mod shape;
pub mod state;
pub mod text;
