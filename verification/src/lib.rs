//! Core of a query-answering bot that routes a natural-language query through
//! a chain of text-generation providers.
//!
//! The library holds the decision logic only: the provider fallback chain, the
//! bounded-retry structured-extraction engine, the two boolean classifiers
//! built on it, and the payload/response shapes the providers speak.  All
//! network traffic, credential loading and front-end plumbing live outside the
//! library; a driver performs each outbound call and feeds the outcome back
//! into the state machines defined here.

pub mod classifier;
pub mod completion;
pub mod engine;
pub mod errors;
pub mod gemini;
pub mod json;
pub mod orchestrator;
pub mod perplexity;
pub mod schema;
pub mod structured;
