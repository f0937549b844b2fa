//! The shape every new module's `api.rs` starts from: a command with its
//! response and a query with its response. The handlers are written when a
//! module fills the template in.
#![allow(non_camel_case_types)]

use vstd::prelude::*;

verus! {

/// Intent to perform the module's first write.
#[derive(Debug)]
pub struct Example_Verb_NounCommand {}

#[derive(Debug)]
pub struct Example_Verb_NounResponse {}

/// Read-only intent; no side effects.
#[derive(Debug)]
pub struct GetExampleQuery {}

#[derive(Debug)]
pub struct ExampleResponse {}

} // verus!
