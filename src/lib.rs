//! Validates a target executable and plans its launch with an injection
//! library preloaded by the dynamic linker.

pub mod environ;
pub mod error;
pub mod inspect;
pub mod launch;
pub mod locate;

pub use environ::{compose_env, compose_preload};
pub use error::ErrorKind;
pub use inspect::{check_file_facts, inspect_header, validate_target, FileFacts};
pub use launch::{exit_status, Action, Event, Launch, LaunchRequest, Phase, FAILURE_STATUS};
pub use locate::{artifact_candidates, first_found, join_path};
