//! Generation and management of systemd service units.
//!
//! A [`ServiceConfig`] describes one service; [`SystemdService`] turns it
//! into unit-file text and classifies the outcomes of the privileged
//! operations (writing the unit file, reloading the daemon, enabling and
//! starting the unit) that a thin platform layer performs on its behalf.

mod config;
mod error;
mod laws;
mod manager;
mod render;

pub use config::ServiceConfig;
pub use config::ConfigView;
pub use error::Error;
pub use error::spec_message;
pub use manager::SystemdService;
pub use manager::validate_root_privileges;
pub use manager::spec_unit_path;
pub use config::spec_new_config;
pub use render::spec_render;
pub use render::spec_lines;
pub use render::unlines;
pub use render::join_spaces;
pub use render::env_entry;
pub use render::dec_digits;
pub use laws::line_has_prefix;
pub use laws::absent_fields_unmentioned;
pub use laws::env_base;
pub use laws::lemma_render_deterministic;
pub use laws::lemma_defaults_rendered;
pub use laws::lemma_environment_lines_in_order;
pub use laws::lemma_after_line;
pub use laws::lemma_log_lines_present;
pub use laws::lemma_log_file_pairing;
pub use laws::lemma_line_unmentioned;
pub use laws::lemma_absent_fields_never_rendered;
