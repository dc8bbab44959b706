use vstd::prelude::*;

pub mod borsh_records;
pub mod clock;
pub mod common;
pub mod error;
pub mod parser_types;
pub mod factory;
pub mod protocols;
pub mod registry;
pub mod text;
pub mod types;

verus! {
} // verus!
