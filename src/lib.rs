//! Supervision of the bridge backend process: locating its executable,
//! tracking it through a pid record, naming its log file, building the
//! command lines that start and stop it, and the small codecs the desktop
//! shell uses around it.

pub mod greeting;
pub mod log_sink;
pub mod media;
pub mod origin;
pub mod paths;
pub mod pid_record;
pub mod platform;
pub mod resolver;
pub mod settings;
pub mod supervisor;
pub mod text;
pub mod window;

pub use greeting::greet;
pub use log_sink::{format_log_ts, log_directory, log_file_path, LocalTime};
pub use media::{
    compose_data_url, ext_from_mime, image_data_url, mime_for_lowercase_ext, mime_from_ext, parse_data_url,
    robot_image_file_name, split_data_url, DataUrlError,
};
pub use origin::{bridge_origin, origin_script};
pub use paths::{FsPath, PathModel};
pub use pid_record::{parse_pid_record, pid_record_path, pid_record_text};
pub use platform::Platform;
pub use resolver::{
    candidate_names, resolve_executable, search_plan, search_roots, Probe, ResolveError,
    SearchLayout,
};
pub use settings::{settings_source, validate_json_document, SettingsSource, StoreFile};
pub use supervisor::{
    kill_commands, BridgeProcess, CommandLine, RecoveryPlan, SpawnRequest, Supervisor,
    SupervisorError, TerminationPlan,
};
pub use text::{decimal_text, parse_u32_text};
pub use window::{WindowRestore, WindowState};
