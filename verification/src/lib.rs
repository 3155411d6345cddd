//! Orchestration of smart-contract builds.
//!
//! A build is a short, strictly sequential protocol: provision a disposable
//! workspace, run the toolchain in it, interpret what the toolchain left
//! behind, tear the workspace down, answer.  This crate holds every decision
//! of that protocol as verified code.  The surrounding program performs the
//! effects (directories, files, subprocesses) that the protocol asks for and
//! reports back what happened.

pub mod model;
pub mod ident;
pub mod manifest;
pub mod interpret;
pub mod pipeline;
pub mod laws;
pub mod catalog;
