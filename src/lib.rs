//! Presence telemetry core: the anti-flicker media cache, change-only report
//! dispatch, content-addressed artwork de-duplication and the control plane
//! (reporter lifecycle and permission probe) that embedding hosts drive.
//!
//! Sensing, networking and disk access are performed by the host program;
//! the functions here decide what to do with what it observed.

pub mod artwork;
pub mod codec;
pub mod config;
pub mod control;
pub mod media;
pub mod payload;
pub mod platform;
pub mod reporter;
pub mod text;

pub use config::{AppConfig, MainConfig, Replace, ReporterConfig, Rule, S3Config, ServerConfig};
pub use control::{ControlBoundary, SmLogLevel, SmReporter, SmStatus};
pub use media::{MediaCache, MediaMetadata, NowPlayingInfo, PlaybackState, SensorReading};
pub use platform::{check_permissions, get_all_windows, get_media_info, get_window_icon,
    request_permissions};
pub use reporter::{Reporter, WindowInfo};
