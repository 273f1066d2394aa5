//! The operations that the shell offers to the user interface. Each answers
//! with a value or with a report that can be shown as it is.

use vstd::prelude::*;
use crate::clock::Moment;
use crate::codec::{document_of, lemma_faithful_text_is_stored, stored_text, UNFAITHFUL_TEXT};
use crate::config::{Config, ConfigError, ConfigView};
use crate::document::{parsed, rendered};
use crate::logging::{bundle_name, diagnostic_zip_path, LOG_ENTRY};
use crate::paths::{join, joined, quote, quoted};
use crate::state::{AppState, AppStateView};

verus! {

/// The heading of the report for a record that could not be written as text.
pub const SERIALIZE_FAILURE: &'static str = "Failed to serialize config: ";

/// The heading of the report for a configuration file that could not be
/// written.
pub const WRITE_FAILURE: &'static str = "Failed to write config file: ";

/// The heading of the answer to a successful export.
pub const EXPORT_SUCCESS: &'static str = "Successfully exported to ";

/// The current record.
pub fn get_config(state: &AppState) -> (outcome: Result<Config, String>)
    ensures
        outcome matches Ok(config) && config@ == state@.config,
{
    Ok(state.get())
}

/// Replaces the record and gives the text that the caller is to write over
/// the configuration file.
///
/// The new record is taken as it is: no field is checked against a range.
/// The record in memory is replaced even where the answer is a report. The
/// report is the heading [`SERIALIZE_FAILURE`], then the serializer's own
/// words where it refused, or [`UNFAITHFUL_TEXT`] where its text did not read
/// back.
pub fn update_config(config: Config, state: &mut AppState) -> (outcome: Result<String, String>)
    ensures
        final(state)@ == (AppStateView { config: config@, config_path: old(state)@.config_path }),
        match outcome {
            Ok(text) => stored_text(config@) == Some(text@),
            Err(report) => stored_text(config@) is None && exists|detail: Seq<char>|
                report@ == SERIALIZE_FAILURE@ + detail,
        },
        rendered(document_of(config@)) is Some && stored_text(config@) is None ==> (outcome
            matches Err(report) && report@ == SERIALIZE_FAILURE@ + UNFAITHFUL_TEXT@),
{
    match state.replace_and_persist(config) {
        Ok(text) => Ok(text),
        Err(error) => {
            let detail = match error {
                ConfigError::Io(detail) => detail,
                ConfigError::TomlSerialize(detail) => detail,
                ConfigError::TomlDeserialize(detail) => detail,
            };
            let report = String::from_str(SERIALIZE_FAILURE).concat(detail.as_str());
            assert(report@ == SERIALIZE_FAILURE@ + detail@);
            Err(report)
        },
    }
}

/// An update succeeds, and hands out the text of the new record, as long as
/// the serializer accepts the document of that record and the parser finds
/// that same document in the text. Nothing else can make it fail.
pub proof fn lemma_update_succeeds_on_faithful_text(
    config: ConfigView,
    text: Seq<char>,
    outcome: Result<String, String>,
)
    requires
        rendered(document_of(config)) == Some(text),
        parsed(text) == Some(document_of(config)),
        match outcome {
            Ok(given) => stored_text(config) == Some(given@),
            Err(_) => stored_text(config) is None,
        },
    ensures
        outcome matches Ok(given) && given@ == text,
{
    lemma_faithful_text_is_stored(config, text);
}

/// The report for a configuration file that could not be written, from the
/// system's own words.
pub fn write_failure_report(detail: &str) -> (report: String)
    ensures
        report@ == WRITE_FAILURE@ + detail@,
{
    String::from_str(WRITE_FAILURE).concat(detail)
}

/// The files of an export: the two that are read and the one that is
/// written.
#[derive(Debug)]
pub struct ExportPlan {
    pub config_path: String,
    pub log_path: String,
    pub archive_path: String,
}

/// Resolves the files of an export made on the day of `today`: the stored
/// configuration path, the log file inside `log_dir`, and the bundle inside
/// `output_dir`.
pub fn export_diagnostic_info(
    state: &AppState,
    log_dir: &str,
    output_dir: &str,
    today: &Moment,
) -> (plan: ExportPlan)
    ensures
        plan.config_path@ == state@.config_path,
        plan.log_path@ == joined(log_dir@, LOG_ENTRY@),
        plan.archive_path@ == joined(output_dir@, bundle_name(*today)),
{
    ExportPlan {
        config_path: state.config_path.clone(),
        log_path: join(log_dir, LOG_ENTRY),
        archive_path: diagnostic_zip_path(output_dir, today),
    }
}

/// The answer to a successful export: where the bundle is.
pub fn export_success_report(archive_path: &str) -> (report: String)
    ensures
        report@ == EXPORT_SUCCESS@ + quoted(archive_path@),
{
    String::from_str(EXPORT_SUCCESS).concat(quote(archive_path).as_str())
}

} // verus!
