//! The configuration store: the one authoritative record, the file it is kept
//! in, and how the two come to be when the application starts.

use vstd::prelude::*;
use crate::codec::{
    config_from, document_of, lemma_faithful_text_is_stored, parse_config, read_config,
    serialize_config, stored_text, UNFAITHFUL_TEXT,
};
use crate::config::{
    default_view, Config, ConfigError, ConfigErrorView, ConfigView, DataConfigView,
};
use crate::document::{parsed, rendered};
use crate::paths::{join, joined};

verus! {

/// The name of the configuration file inside the application-data directory.
pub const CONFIG_FILE: &'static str = "config.toml";

/// The name of the database file inside the application-data directory.
pub const DATABASE_FILE: &'static str = "data.db";

/// The name of the video directory inside the application-data directory.
pub const VIDEO_DIRECTORY: &'static str = "videos";

/// The in-memory record together with the path of its file. A caller that
/// shares the store between threads puts it behind its own lock; the single
/// writer is then whoever holds the `&mut`.
#[derive(Debug)]
pub struct AppState {
    pub config: Config,
    pub config_path: String,
}

/// Mathematical value of an [`AppState`].
pub struct AppStateView {
    pub config: ConfigView,
    pub config_path: Seq<char>,
}

impl View for AppState {
    type V = AppStateView;

    open spec fn view(&self) -> AppStateView {
        AppStateView { config: self.config@, config_path: self.config_path@ }
    }
}

impl AppState {
    /// A store that holds `config`, kept in the file at `config_path`.
    pub fn new(config: Config, config_path: String) -> (state: Self)
        ensures
            state@ == (AppStateView { config: config@, config_path: config_path@ }),
    {
        AppState { config, config_path }
    }

    /// A snapshot of the current record.
    pub fn get(&self) -> (snapshot: Config)
        ensures
            snapshot@ == self@.config,
    {
        self.config.clone()
    }

    /// Replaces the whole record and gives the text that the caller is to
    /// write over the configuration file.
    ///
    /// The record in memory is replaced first and stays replaced whatever
    /// follows: when the new record cannot be written as text, or when the
    /// caller then fails to write the file, memory and disk differ. The error
    /// is a [`ConfigError::TomlSerialize`]: with the serializer's report where
    /// it refused, with [`UNFAITHFUL_TEXT`] where its text did not read back.
    pub fn replace_and_persist(&mut self, new: Config) -> (outcome: Result<String, ConfigError>)
        ensures
            final(self)@ == (AppStateView { config: new@, config_path: old(self)@.config_path }),
            match outcome {
                Ok(text) => stored_text(new@) == Some(text@),
                Err(error) => stored_text(new@) is None && error is TomlSerialize,
            },
            rendered(document_of(new@)) is Some && stored_text(new@) is None ==> (outcome
                matches Err(error) && error@ == ConfigErrorView::TomlSerialize(UNFAITHFUL_TEXT@)),
    {
        self.config = new;
        serialize_config(&self.config)
    }
}

/// The record that a fresh installation in `dir` starts from: the defaults,
/// with the database and the videos inside `dir`.
pub open spec fn created_config(dir: Seq<char>) -> ConfigView {
    ConfigView {
        data: DataConfigView {
            database_path: joined(dir, DATABASE_FILE@),
            video_storage_path: joined(dir, VIDEO_DIRECTORY@),
            ..default_view().data
        },
        ..default_view()
    }
}

/// The record that a fresh installation in `app_data_dir` starts from.
pub fn default_config(app_data_dir: &str) -> (config: Config)
    ensures
        config@ == created_config(app_data_dir@),
{
    let mut config = Config::default();
    config.data.database_path = join(app_data_dir, DATABASE_FILE);
    config.data.video_storage_path = join(app_data_dir, VIDEO_DIRECTORY);
    config
}

/// What load-or-create resolved: the store, and the text to write to the
/// configuration file where it did not exist yet.
#[derive(Debug)]
pub struct Loaded {
    pub state: AppState,
    pub to_write: Option<String>,
}

/// Whether `outcome` is what load-or-create owes for the directory `dir` and
/// the content `existing` of its configuration file, `None` for a file that
/// does not exist.
///
/// An existing file is only read: its record is returned as it stands and
/// nothing is to be written; a content that is not TOML, or holds no record,
/// is an error and is not replaced by defaults. Without a file the record is
/// made from the defaults and comes with its text.
pub open spec fn resolves(
    dir: Seq<char>,
    existing: Option<Seq<char>>,
    outcome: Result<Loaded, ConfigError>,
) -> bool {
    match existing {
        Some(text) => match parsed(text) {
            Some(document) => match config_from(document) {
                Ok(config) => {
                    &&& outcome matches Ok(loaded)
                    &&& loaded.state@ == (AppStateView {
                        config,
                        config_path: joined(dir, CONFIG_FILE@),
                    })
                    &&& loaded.to_write is None
                },
                Err(expected) => outcome matches Err(error) && error@ == expected,
            },
            None => outcome matches Err(error) && error is TomlDeserialize,
        },
        None => match stored_text(created_config(dir)) {
            Some(text) => {
                &&& outcome matches Ok(loaded)
                &&& loaded.state@ == (AppStateView {
                    config: created_config(dir),
                    config_path: joined(dir, CONFIG_FILE@),
                })
                &&& loaded.to_write matches Some(written)
                &&& written@ == text
            },
            None => outcome matches Err(error) && error is TomlSerialize,
        },
    }
}

/// Resolves the configuration of the application-data directory
/// `app_data_dir`, given the content of its configuration file, `None` for a
/// file that does not exist.
///
/// The caller makes sure the directory exists, reads the file before the
/// call, and writes `to_write` to it afterwards.
pub fn load_or_create_config(app_data_dir: &str, existing: Option<&str>) -> (outcome: Result<
    Loaded,
    ConfigError,
>)
    ensures
        resolves(
            app_data_dir@,
            match existing {
                Some(text) => Some(text@),
                None => None,
            },
            outcome,
        ),
{
    let config_path = join(app_data_dir, CONFIG_FILE);
    match existing {
        Some(text) => {
            let config = parse_config(text)?;
            Ok(Loaded { state: AppState::new(config, config_path), to_write: None })
        },
        None => {
            let config = default_config(app_data_dir);
            let text = serialize_config(&config)?;
            Ok(Loaded { state: AppState::new(config, config_path), to_write: Some(text) })
        },
    }
}

/// Load-or-create is idempotent: in a directory without a configuration file
/// it gives the default record and a text for the file, and run again on
/// that text it gives the same store and leaves the file alone.
pub proof fn lemma_load_or_create_is_idempotent(
    dir: Seq<char>,
    first: Result<Loaded, ConfigError>,
    text: Seq<char>,
    second: Result<Loaded, ConfigError>,
)
    requires
        resolves(dir, None, first),
        first matches Ok(created) && created.to_write matches Some(written) && written@ == text,
        resolves(dir, Some(text), second),
    ensures
        first matches Ok(created) && created.state@.config == created_config(dir),
        read_config(text) == Some(created_config(dir)),
        second matches Ok(again) && first matches Ok(created) && again.state@ == created.state@
            && again.to_write is None,
{
}

/// The first load in a directory succeeds, and hands out the text of the
/// default record, as long as the serializer accepts the document of that
/// record and the parser finds that same document in the text. Nothing else
/// can make it fail.
pub proof fn lemma_first_load_succeeds_on_faithful_text(
    dir: Seq<char>,
    text: Seq<char>,
    outcome: Result<Loaded, ConfigError>,
)
    requires
        rendered(document_of(created_config(dir))) == Some(text),
        parsed(text) == Some(document_of(created_config(dir))),
        resolves(dir, None, outcome),
    ensures
        ({
            &&& outcome matches Ok(loaded)
            &&& loaded.state@.config == created_config(dir)
            &&& loaded.to_write matches Some(written)
            &&& written@ == text
        }),
{
    lemma_faithful_text_is_stored(created_config(dir), text);
}

/// The paths of a record are fixed when it is created: a later load gives the
/// record of the file as it stands, whatever the directory is.
pub proof fn lemma_existing_record_is_not_recomputed(
    dir: Seq<char>,
    other_dir: Seq<char>,
    text: Seq<char>,
    outcome: Result<Loaded, ConfigError>,
    other_outcome: Result<Loaded, ConfigError>,
)
    requires
        resolves(dir, Some(text), outcome),
        resolves(other_dir, Some(text), other_outcome),
    ensures
        outcome matches Ok(loaded) ==> read_config(text) == Some(loaded.state@.config),
        outcome matches Ok(loaded) ==> other_outcome matches Ok(other) && other.state@.config
            == loaded.state@.config,
{
}

/// A configuration file that holds no record makes load-or-create fail with a
/// deserialization error; nothing is handed out to be written over the file.
pub proof fn lemma_invalid_file_is_kept(
    dir: Seq<char>,
    text: Seq<char>,
    outcome: Result<Loaded, ConfigError>,
)
    requires
        read_config(text) is None,
        resolves(dir, Some(text), outcome),
    ensures
        outcome matches Err(error) && error is TomlDeserialize,
{
}

} // verus!
