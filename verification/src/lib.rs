//! A minimal continuous-integration runner, as a verified library.
//!
//! The library holds the decision logic of the runner: detecting whether the
//! upstream repository moved, deriving a run's outcome from its exit code,
//! formatting the persisted log artifact and its public address, mapping an
//! outcome to a commit-status update, and the state machines that sequence
//! one run cycle and keep at most one cycle in flight.

pub mod config;
pub mod cycle;
pub mod detect;
pub mod logstore;
pub mod numfmt;
pub mod poller;
pub mod runner;
pub mod status;
pub mod text;

pub use config::GlobalConfig;
pub use config::LocalConfig;
pub use cycle::Cycle;
pub use cycle::CyclePhase;
pub use cycle::lemma_one_pending_one_terminal;
pub use detect::has_update;
pub use detect::lemma_has_update_idempotent;
pub use logstore::artifact_address;
pub use logstore::format_artifact;
pub use logstore::lemma_path_and_url_share_identifier;
pub use logstore::repo_dir;
pub use logstore::status_line;
pub use numfmt::i32_to_string;
pub use numfmt::u64_to_string;
pub use poller::Detection;
pub use poller::Poller;
pub use poller::RunnerEvent;
pub use poller::RunnerModel;
pub use poller::TickAction;
pub use poller::lemma_forced_run_consumed;
pub use poller::lemma_single_flight;
pub use poller::lemma_single_flight_always;
pub use poller::lemma_step_preserves_single_flight;
pub use runner::RunRecord;
pub use runner::wrapped_command;
pub use status::CiError;
pub use status::CiState;
pub use status::StatusUpdate;
pub use status::build_ci_status;
pub use status::pending_update;
pub use text::split_repo;
pub use text::trim_ascii_whitespace;
