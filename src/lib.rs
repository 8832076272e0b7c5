//! Startup logic of a desktop shell around a local time-series database: the
//! update flow (preference, version check, prompts, download progress,
//! restart) and the recovery from a failed schema migration (classification,
//! dialog language, native dialog scripts, the reset protocol). Both flows are
//! state machines from state and event to next state and action; the shell
//! performs the actions and feeds back what happened.

use vstd::prelude::*;

pub mod commands;
pub mod migrations;
pub mod progress;
pub mod recovery;
pub mod text;
pub mod update;

verus! {

} // verus!
