//! Decision and text logic of the uTalk attendance bot, verified with Verus.
use vstd::prelude::*;

pub mod accounts;
pub mod assistant;
pub mod assets;
pub mod catalog;
pub mod config;
pub mod conversation;
pub mod flow;
pub mod gemini;
pub mod history;
pub mod json;
pub mod prompts;
pub mod text;
pub mod utalk;
pub mod webhook;

verus! {
} // verus!
