use vstd::prelude::*;

pub mod auth;
pub mod config;
pub mod consumer;
pub mod decode;
pub mod engine;
pub mod laws;
pub mod ledger;
pub mod pipeline;
pub mod store;
pub mod validation;

verus! {

/// Greeting served at the service root.
pub fn index() -> (r: String)
    ensures
        r@ == "Hello, Rocket!"@,
{
    String::from_str("Hello, Rocket!")
}

} // verus!
