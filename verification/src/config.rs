//! The configuration record.

use vstd::prelude::*;

verus! {

/// Mathematical value of a [`CameraConfig`].
pub struct CameraConfigView {
    pub posture_camera_id: Seq<char>,
    pub board_camera_id: Seq<char>,
    pub video_resolution: Seq<char>,
    pub video_framerate: u32,
}

/// Mathematical value of a [`DataConfig`].
pub struct DataConfigView {
    pub database_path: Seq<char>,
    pub video_storage_path: Seq<char>,
    pub auto_delete_days: u32,
}

/// Mathematical value of a [`Config`].
pub struct ConfigView {
    pub camera: CameraConfigView,
    pub data: DataConfigView,
    pub network: NetworkConfig,
}

/// Camera section: which devices record, and how.
#[derive(Debug)]
pub struct CameraConfig {
    /// Identifier of the posture camera; empty while unset.
    pub posture_camera_id: String,
    /// Identifier of the board camera; empty while unset.
    pub board_camera_id: String,
    /// Resolution as `WIDTHxHEIGHT`.
    pub video_resolution: String,
    pub video_framerate: u32,
}

/// Data section: where the database and the videos live.
#[derive(Debug)]
pub struct DataConfig {
    pub database_path: String,
    pub video_storage_path: String,
    /// Retention in days.
    pub auto_delete_days: u32,
}

/// Network section.
#[derive(Debug, Clone, Copy, PartialEq, Eq, Structural)]
pub struct NetworkConfig {
    pub rpc_port: u16,
}

/// The whole configuration record.
#[derive(Debug)]
pub struct Config {
    pub camera: CameraConfig,
    pub data: DataConfig,
    pub network: NetworkConfig,
}

impl View for CameraConfig {
    type V = CameraConfigView;

    open spec fn view(&self) -> CameraConfigView {
        CameraConfigView {
            posture_camera_id: self.posture_camera_id@,
            board_camera_id: self.board_camera_id@,
            video_resolution: self.video_resolution@,
            video_framerate: self.video_framerate,
        }
    }
}

impl View for DataConfig {
    type V = DataConfigView;

    open spec fn view(&self) -> DataConfigView {
        DataConfigView {
            database_path: self.database_path@,
            video_storage_path: self.video_storage_path@,
            auto_delete_days: self.auto_delete_days,
        }
    }
}

impl View for Config {
    type V = ConfigView;

    open spec fn view(&self) -> ConfigView {
        ConfigView { camera: self.camera@, data: self.data@, network: self.network }
    }
}

impl Clone for CameraConfig {
    fn clone(&self) -> (copy: Self)
        ensures
            copy@ == self@,
    {
        CameraConfig {
            posture_camera_id: self.posture_camera_id.clone(),
            board_camera_id: self.board_camera_id.clone(),
            video_resolution: self.video_resolution.clone(),
            video_framerate: self.video_framerate,
        }
    }
}

impl Clone for DataConfig {
    fn clone(&self) -> (copy: Self)
        ensures
            copy@ == self@,
    {
        DataConfig {
            database_path: self.database_path.clone(),
            video_storage_path: self.video_storage_path.clone(),
            auto_delete_days: self.auto_delete_days,
        }
    }
}

impl Clone for Config {
    fn clone(&self) -> (copy: Self)
        ensures
            copy@ == self@,
    {
        Config { camera: self.camera.clone(), data: self.data.clone(), network: self.network }
    }
}

impl PartialEq for CameraConfig {
    fn eq(&self, other: &Self) -> (equal: bool) {
        self.posture_camera_id == other.posture_camera_id
            && self.board_camera_id == other.board_camera_id
            && self.video_resolution == other.video_resolution
            && self.video_framerate == other.video_framerate
    }
}

impl vstd::std_specs::cmp::PartialEqSpecImpl for CameraConfig {
    open spec fn obeys_eq_spec() -> bool {
        true
    }

    open spec fn eq_spec(&self, other: &Self) -> bool {
        self@ == other@
    }
}

impl PartialEq for DataConfig {
    fn eq(&self, other: &Self) -> (equal: bool) {
        self.database_path == other.database_path
            && self.video_storage_path == other.video_storage_path
            && self.auto_delete_days == other.auto_delete_days
    }
}

impl vstd::std_specs::cmp::PartialEqSpecImpl for DataConfig {
    open spec fn obeys_eq_spec() -> bool {
        true
    }

    open spec fn eq_spec(&self, other: &Self) -> bool {
        self@ == other@
    }
}

impl PartialEq for Config {
    fn eq(&self, other: &Self) -> (equal: bool) {
        self.camera == other.camera && self.data == other.data && self.network == other.network
    }
}

impl vstd::std_specs::cmp::PartialEqSpecImpl for Config {
    open spec fn obeys_eq_spec() -> bool {
        true
    }

    open spec fn eq_spec(&self, other: &Self) -> bool {
        self@ == other@
    }
}

/// The record a fresh installation starts from, before its two paths are
/// resolved: no cameras chosen, 1280x720 at 30 frames, 90 days of retention,
/// port 8080.
pub open spec fn default_view() -> ConfigView {
    ConfigView {
        camera: CameraConfigView {
            posture_camera_id: Seq::empty(),
            board_camera_id: Seq::empty(),
            video_resolution: "1280x720"@,
            video_framerate: 30,
        },
        data: DataConfigView {
            database_path: Seq::empty(),
            video_storage_path: Seq::empty(),
            auto_delete_days: 90,
        },
        network: NetworkConfig { rpc_port: 8080 },
    }
}

impl Default for Config {
    fn default() -> (config: Self)
        ensures
            config@ == default_view(),
    {
        Config {
            camera: CameraConfig {
                posture_camera_id: String::new(),
                board_camera_id: String::new(),
                video_resolution: String::from_str("1280x720"),
                video_framerate: 30,
            },
            data: DataConfig {
                database_path: String::new(),
                video_storage_path: String::new(),
                auto_delete_days: 90,
            },
            network: NetworkConfig { rpc_port: 8080 },
        }
    }
}

/// What can go wrong while a configuration is loaded or stored. Each variant
/// carries the underlying report as text.
#[derive(Debug)]
pub enum ConfigError {
    /// A directory or file could not be created, read or written.
    Io(String),
    /// The record could not be written as TOML.
    TomlSerialize(String),
    /// The file's content is not TOML, or not a configuration.
    TomlDeserialize(String),
}

/// Mathematical value of a [`ConfigError`].
pub enum ConfigErrorView {
    Io(Seq<char>),
    TomlSerialize(Seq<char>),
    TomlDeserialize(Seq<char>),
}

impl View for ConfigError {
    type V = ConfigErrorView;

    open spec fn view(&self) -> ConfigErrorView {
        match self {
            ConfigError::Io(detail) => ConfigErrorView::Io(detail@),
            ConfigError::TomlSerialize(detail) => ConfigErrorView::TomlSerialize(detail@),
            ConfigError::TomlDeserialize(detail) => ConfigErrorView::TomlDeserialize(detail@),
        }
    }
}

/// The text of an error: a fixed heading for its kind, then the report.
pub open spec fn error_text(error: ConfigErrorView) -> Seq<char> {
    match error {
        ConfigErrorView::Io(detail) => "File I/O error: "@ + detail,
        ConfigErrorView::TomlSerialize(detail) => "TOML serialization error: "@ + detail,
        ConfigErrorView::TomlDeserialize(detail) => "TOML deserialization error: "@ + detail,
    }
}

impl ConfigError {
    /// Renders the error for a reader.
    pub fn message(&self) -> (text: String)
        ensures
            text@ == error_text(self@),
    {
        match self {
            ConfigError::Io(detail) => String::from_str("File I/O error: ").concat(
                detail.as_str(),
            ),
            ConfigError::TomlSerialize(detail) => String::from_str(
                "TOML serialization error: ",
            ).concat(detail.as_str()),
            ConfigError::TomlDeserialize(detail) => String::from_str(
                "TOML deserialization error: ",
            ).concat(detail.as_str()),
        }
    }
}

impl PartialEq for ConfigError {
    fn eq(&self, other: &Self) -> (equal: bool) {
        match self {
            ConfigError::Io(mine) => match other {
                ConfigError::Io(theirs) => *mine == *theirs,
                _ => false,
            },
            ConfigError::TomlSerialize(mine) => match other {
                ConfigError::TomlSerialize(theirs) => *mine == *theirs,
                _ => false,
            },
            ConfigError::TomlDeserialize(mine) => match other {
                ConfigError::TomlDeserialize(theirs) => *mine == *theirs,
                _ => false,
            },
        }
    }
}

impl vstd::std_specs::cmp::PartialEqSpecImpl for ConfigError {
    open spec fn obeys_eq_spec() -> bool {
        true
    }

    open spec fn eq_spec(&self, other: &Self) -> bool {
        self@ == other@
    }
}

} // verus!
