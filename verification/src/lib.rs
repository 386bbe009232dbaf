//! A webhook-triggered continuous-integration orchestrator.
//!
//! When an authorized commenter writes the trigger keyword on a pull
//! request, the pipeline resolves the pull request's head commit, builds it
//! in a container, submits the artifact to an external profiling service,
//! waits for the results, and publishes them back as a pull-request comment.
//! The orchestration itself is a verified state machine
//! ([`pipeline::step`]); the surrounding process does the input and output
//! and feeds each outcome back into the machine.

pub mod builder;
pub mod config;
pub mod decode;
pub mod json;
pub mod laws;
pub mod pipeline;
pub mod report;
pub mod text;
pub mod trigger;
