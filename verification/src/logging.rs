//! Log lines with sensitive data masked, and the diagnostic bundle.

use vstd::prelude::*;
use crate::archive::{
    archive_of, build_archive, entries_view, name_fits, stored_entries, Compression, Entry,
    EntryView, ExportError,
};
use crate::clock::{date_stamp, date_stamp_text, timestamp, timestamp_text, Moment};
use crate::paths::{join, joined};

verus! {

/// Matches a dotted quad of one to three digits each. The numbers are not
/// range-checked.
pub const ADDRESS_PATTERN: &'static str = "\\d{1,3}\\.\\d{1,3}\\.\\d{1,3}\\.\\d{1,3}";

/// What stands in place of an address.
pub const ADDRESS_MASK: &'static str = "[MASKED_IP]";

/// What follows the escaped home directory in the pattern of the home rule:
/// one separator, which closes the first group, then the segment to mask.
pub const HOME_PATTERN_TAIL: &'static str = "[/\\\\])[^/\\\\]+";

/// What stands in place of a match of the home rule: the first group, which
/// is the home directory and the separator, then the mask.
pub const HOME_MASK: &'static str = "${1}[MASKED]";

/// Which rule could not be applied.
#[derive(Debug, Clone, Copy, PartialEq, Eq, Structural)]
pub enum MaskError {
    /// The pattern made from the home directory was refused.
    HomeRule,
    /// The address pattern was refused.
    AddressRule,
}

/// `regex::Error`. Only that it occurred is used, not what it holds.
#[verifier::external_type_specification]
#[verifier::external_body]
pub struct ExRegexError(regex::Error);

/// `text` with every match of the regular expression `pattern` replaced by
/// `replacement`, in which `$` refers to groups; `None` where `pattern` is
/// refused.
pub uninterp spec fn replaced(pattern: Seq<char>, text: Seq<char>, replacement: Seq<char>) -> Option<
    Seq<char>,
>;

/// Replaces every match of `pattern` in `text`.
///
/// Calls `regex::Regex::new`, then `regex::Regex::replace_all`. Trusted: the
/// outcome is the one that `replaced` names, an error exactly where the
/// pattern is refused.
#[verifier::external_body]
fn replace_all(pattern: &str, text: &str, replacement: &str) -> (outcome: Result<
    String,
    regex::Error,
>)
    ensures
        outcome matches Ok(result) ==> replaced(pattern@, text@, replacement@) == Some(result@),
        outcome is Err ==> replaced(pattern@, text@, replacement@) is None,
{
    Ok(regex::Regex::new(pattern)?.replace_all(text, replacement).into_owned())
}

/// A character with a meaning of its own in a regular expression.
pub open spec fn is_meta(c: char) -> bool {
    c == '\\' || c == '.' || c == '+' || c == '*' || c == '?' || c == '(' || c == ')' || c == '|'
        || c == '[' || c == ']' || c == '{' || c == '}' || c == '^' || c == '$' || c == '#' || c
        == '&' || c == '-' || c == '~'
}

/// `text` with a backslash in front of every meta character.
pub open spec fn escaped(text: Seq<char>) -> Seq<char>
    decreases text.len(),
{
    if text.len() == 0 {
        Seq::empty()
    } else if is_meta(text.last()) {
        escaped(text.drop_last()).push('\\').push(text.last())
    } else {
        escaped(text.drop_last()).push(text.last())
    }
}

/// Makes `text` a literal of a regular expression.
///
/// Calls `regex::escape`. Trusted: a backslash is put in front of each of the
/// characters that `regex_syntax::is_meta_character` lists, and nothing else
/// changes.
#[verifier::external_body]
fn escape(text: &str) -> (literal: String)
    ensures
        literal@ == escaped(text@),
{
    regex::escape(text)
}

/// The home directory of the current user, where there is one and its path
/// is text.
///
/// Calls `dirs::home_dir`. The answer depends on the environment: nothing is
/// stated of it.
#[verifier::external_body]
fn home_directory() -> (home: Option<String>) {
    match dirs::home_dir() {
        Some(home) => home.into_os_string().into_string().ok(),
        None => None,
    }
}

/// The pattern of the home rule: the home directory, one separator, and one
/// or more characters that are no separator.
pub open spec fn home_pattern(home: Seq<char>) -> Seq<char> {
    "("@ + escaped(home) + HOME_PATTERN_TAIL@
}

/// The address rule applied to `text`.
pub open spec fn addresses_masked(text: Seq<char>) -> Result<Seq<char>, MaskError> {
    match replaced(ADDRESS_PATTERN@, text, ADDRESS_MASK@) {
        Some(result) => Ok(result),
        None => Err(MaskError::AddressRule),
    }
}

/// Both rules applied to `message`, the home rule first. Without a home
/// directory the home rule changes nothing.
pub open spec fn masked(message: Seq<char>, home: Option<Seq<char>>) -> Result<
    Seq<char>,
    MaskError,
> {
    match home {
        Some(home) => match replaced(home_pattern(home), message, HOME_MASK@) {
            Some(result) => addresses_masked(result),
            None => Err(MaskError::HomeRule),
        },
        None => addresses_masked(message),
    }
}

/// Mathematical value of a masking outcome.
pub open spec fn outcome_view(outcome: Result<String, MaskError>) -> Result<Seq<char>, MaskError> {
    match outcome {
        Ok(text) => Ok(text@),
        Err(error) => Err(error),
    }
}

fn mask_addresses(text: &str) -> (outcome: Result<String, MaskError>)
    ensures
        outcome_view(outcome) == addresses_masked(text@),
{
    match replace_all(ADDRESS_PATTERN, text, ADDRESS_MASK) {
        Ok(result) => Ok(result),
        Err(_) => Err(MaskError::AddressRule),
    }
}

/// Masks one log line, given the home directory to look for.
///
/// Under the home directory the first path segment is replaced by
/// `[MASKED]`; every dotted quad is replaced by `[MASKED_IP]`.
pub fn mask_with_home(message: &str, home: Option<&str>) -> (outcome: Result<String, MaskError>)
    ensures
        outcome_view(outcome) == masked(
            message@,
            match home {
                Some(home) => Some(home@),
                None => None,
            },
        ),
{
    match home {
        Some(home) => {
            let literal = escape(home);
            let pattern = String::from_str("(").concat(literal.as_str()).concat(HOME_PATTERN_TAIL);
            match replace_all(pattern.as_str(), message, HOME_MASK) {
                Ok(result) => mask_addresses(result.as_str()),
                Err(_) => Err(MaskError::HomeRule),
            }
        },
        None => mask_addresses(message),
    }
}

/// Masks one log line for the current user.
///
/// The home directory comes from the environment, so the contract holds for
/// whichever one was found.
pub fn mask_sensitive_info(message: &str) -> (outcome: Result<String, MaskError>)
    ensures
        exists|home: Option<Seq<char>>| outcome_view(outcome) == masked(message@, home),
{
    match home_directory() {
        Some(home) => {
            let outcome = mask_with_home(message, Some(home.as_str()));
            assert(outcome_view(outcome) == masked(message@, Some(home@)));
            outcome
        },
        None => {
            let outcome = mask_with_home(message, None);
            assert(outcome_view(outcome) == masked(message@, None));
            outcome
        },
    }
}

/// A log line: the timestamp and the level in brackets, then the message.
pub open spec fn log_line_text(moment: Moment, level: Seq<char>, message: Seq<char>) -> Seq<char> {
    "["@ + timestamp_text(moment) + "] ["@ + level + "] "@ + message
}

/// Formats one log line from a message that is already masked.
pub fn log_line(moment: &Moment, level: &str, message: &str) -> (line: String)
    ensures
        line@ == log_line_text(*moment, level@, message@),
{
    String::from_str("[").concat(timestamp(moment).as_str()).concat("] [").concat(level).concat(
        "] ",
    ).concat(message)
}

/// What a record of the log becomes: its message masked, then set behind the
/// timestamp and the level.
pub open spec fn record_text(
    moment: Moment,
    level: Seq<char>,
    message: Seq<char>,
    home: Option<Seq<char>>,
) -> Result<Seq<char>, MaskError> {
    match masked(message, home) {
        Ok(safe) => Ok(log_line_text(moment, level, safe)),
        Err(error) => Err(error),
    }
}

/// Formats one record of the log as of now, for the current user.
///
/// The moment comes from the clock and the home directory from the
/// environment, so the contract holds for whichever were found.
pub fn format_record(level: &str, message: &str) -> (outcome: Result<String, MaskError>)
    ensures
        exists|moment: Moment, home: Option<Seq<char>>|
            moment.well_formed() && outcome_view(outcome) == record_text(
                moment,
                level@,
                message@,
                home,
            ),
{
    let moment = Moment::now();
    let safe = mask_sensitive_info(message);
    let ghost home = choose|home: Option<Seq<char>>| outcome_view(safe) == masked(message@, home);
    let outcome = match safe {
        Ok(text) => Ok(log_line(&moment, level, text.as_str())),
        Err(error) => Err(error),
    };
    assert(outcome_view(outcome) == record_text(moment, level@, message@, home));
    outcome
}

/// The name of the configuration inside a bundle.
pub const CONFIG_ENTRY: &'static str = "config.toml";

/// The name of the log inside a bundle.
pub const LOG_ENTRY: &'static str = "renxin.log";

/// The permission bits of every entry of a bundle.
pub const ENTRY_MODE: u32 = 0o644;

/// One entry of a bundle: deflated, readable by all, writable by the owner.
pub open spec fn bundle_entry(name: Seq<char>, data: Seq<u8>) -> EntryView {
    EntryView { name, mode: ENTRY_MODE, compression: Compression::Deflated, data }
}

/// The entries of a bundle: the configuration, then the log, each only where
/// its file was there.
pub open spec fn bundle_entries(config: Option<Seq<u8>>, log: Option<Seq<u8>>) -> Seq<EntryView> {
    let first = match config {
        Some(data) => seq![bundle_entry(CONFIG_ENTRY@, data)],
        None => Seq::empty(),
    };
    let second = match log {
        Some(data) => seq![bundle_entry(LOG_ENTRY@, data)],
        None => Seq::empty(),
    };
    first + second
}

/// The names of a bundle are short enough for an archive, whatever the files
/// hold: a bundle fails only where the archive writer does.
pub proof fn lemma_bundle_names_fit(config: Option<Seq<u8>>, log: Option<Seq<u8>>)
    ensures
        forall|k: int|
            0 <= k < bundle_entries(config, log).len() ==> name_fits(
                #[trigger] bundle_entries(config, log)[k],
            ),
{
    reveal_strlit("config.toml");
    reveal_strlit("renxin.log");
    vstd::utf8::is_ascii_chars_encode_utf8(CONFIG_ENTRY@);
    vstd::utf8::is_ascii_chars_encode_utf8(LOG_ENTRY@);
}

/// Mathematical value of the content of a file that may be absent.
pub open spec fn content_view(content: Option<Vec<u8>>) -> Option<Seq<u8>> {
    match content {
        Some(data) => Some(data@),
        None => None,
    }
}

/// Lists what goes into a bundle, given the bytes of the configuration file
/// and of the log file, `None` for a file that does not exist.
pub fn diagnostic_entries(config: Option<Vec<u8>>, log: Option<Vec<u8>>) -> (entries: Vec<Entry>)
    ensures
        entries_view(&entries) == bundle_entries(content_view(config), content_view(log)),
        stored_entries(entries_view(&entries)) == entries_view(&entries),
{
    let mut entries: Vec<Entry> = Vec::new();
    match config {
        Some(data) => {
            entries.push(
                Entry {
                    name: String::from_str(CONFIG_ENTRY),
                    mode: ENTRY_MODE,
                    compression: Compression::Deflated,
                    data,
                },
            );
        },
        None => {},
    }
    match log {
        Some(data) => {
            entries.push(
                Entry {
                    name: String::from_str(LOG_ENTRY),
                    mode: ENTRY_MODE,
                    compression: Compression::Deflated,
                    data,
                },
            );
        },
        None => {},
    }
    proof {
        assert(0o644u32 & 0o777u32 == 0o644u32) by (bit_vector);
        assert(entries_view(&entries) =~= bundle_entries(content_view(config), content_view(log)));
        assert(stored_entries(entries_view(&entries)) =~= entries_view(&entries));
    }
    entries
}

/// Builds the diagnostic bundle in memory from the bytes of the configuration
/// file and of the log file, `None` for a file that does not exist.
///
/// The bytes are those of the archive that holds exactly the entries of
/// [`bundle_entries`]. Where the archive writer fails, its report comes back
/// as [`ExportError::Archive`].
pub fn create_diagnostic_zip(config: Option<Vec<u8>>, log: Option<Vec<u8>>) -> (outcome: Result<
    Vec<u8>,
    ExportError,
>)
    ensures
        match outcome {
            Ok(bytes) => archive_of(bundle_entries(content_view(config), content_view(log)))
                == Some(bytes@),
            Err(error) => archive_of(bundle_entries(content_view(config), content_view(log)))
                is None && error is Archive,
        },
{
    let entries = diagnostic_entries(config, log);
    build_archive(&entries)
}

/// The file name of the bundle made on the day of `today`.
pub open spec fn bundle_name(today: Moment) -> Seq<char> {
    "darts_diag_"@ + date_stamp_text(today) + ".zip"@
}

/// The file name of the bundle made on the day of `today`:
/// `darts_diag_YYYYMMDD.zip`.
pub fn diagnostic_zip_name(today: &Moment) -> (name: String)
    ensures
        name@ == bundle_name(*today),
{
    String::from_str("darts_diag_").concat(date_stamp(today).as_str()).concat(".zip")
}

/// Where the bundle made on the day of `today` goes under `output_dir`. Two
/// bundles of one day share the path: the later one replaces the earlier.
/// The path is absolute where `output_dir` is: a caller that owes an absolute
/// path hands in an absolute directory.
pub fn diagnostic_zip_path(output_dir: &str, today: &Moment) -> (path: String)
    ensures
        path@ == joined(output_dir@, bundle_name(*today)),
{
    join(output_dir, diagnostic_zip_name(today).as_str())
}

} // verus!
