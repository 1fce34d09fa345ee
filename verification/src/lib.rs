//! Agent coordination and research retrieval pipeline.
//!
//! A conversational front-end routes user text to named handlers
//! ("agents").  The research agent classifies the text into a research
//! intent, checks requested URLs against a fixed domain allow-list,
//! extracts readable content from fetched markup, and turns a
//! generation backend's reply into a structured summary with a degraded
//! fallback.  A registry scores every agent against a request and a
//! coordinator folds the chosen agent's response back into the shared
//! session context.

pub mod agents;
pub mod coordinator;
pub mod extract;
pub mod intent;
pub mod mock;
pub mod postprocess;
pub mod protocol;
pub mod registry;
pub mod research;
pub mod safety;
pub mod text;
pub mod therapeutic;
pub mod urlcheck;
