//! Build orchestration for turning a crate into language bindings, with the
//! architecture grouping, manifest edits and build plans proved correct.
use vstd::prelude::*;

pub mod arch;
pub mod command;
pub mod error;
pub mod flutter;
pub mod grouping;
pub mod manifest;
pub mod noir;
pub mod run;
pub mod text;

pub use flutter::{build, FlutterBindingsParams};
pub use noir::{generate_noir_proof, get_noir_verification_key, verify_noir_proof};

verus! {

/// The greeting text for `name`.
pub open spec fn greeting(name: Seq<char>) -> Seq<char> {
    "Hi Mopro, "@ + name + "!"@
}

/// Greets `name` by its name.
pub fn greet(name: String) -> (r: String)
    ensures
        r@ == greeting(name@),
{
    let mut r = String::from_str("Hi Mopro, ");
    r.append(name.as_str());
    r.append("!");
    r
}

} // verus!
