//! The configuration file: how a record is laid out as a document, how a
//! document is read back as a record, and the two as text.

use vstd::prelude::*;
use crate::config::{
    CameraConfig, CameraConfigView, Config, ConfigError, ConfigErrorView, ConfigView, DataConfig,
    DataConfigView, NetworkConfig,
};
use crate::document::{
    document_view, fields_view, parse_document, parse_failure_text, parsed, render_document,
    render_failure_text, rendered, writable, Field, FieldView, Scalar, ScalarView, Section,
    SectionView,
};

verus! {

/// The name of the camera section.
pub const CAMERA_SECTION: &'static str = "camera";

/// The key of the posture camera.
pub const POSTURE_CAMERA_KEY: &'static str = "posture-camera-id";

/// The key of the board camera.
pub const BOARD_CAMERA_KEY: &'static str = "board-camera-id";

/// The key of the video resolution.
pub const RESOLUTION_KEY: &'static str = "video-resolution";

/// The key of the frame rate.
pub const FRAMERATE_KEY: &'static str = "video-framerate";

/// The name of the data section.
pub const DATA_SECTION: &'static str = "data";

/// The key of the database path.
pub const DATABASE_KEY: &'static str = "database-path";

/// The key of the video directory.
pub const VIDEO_STORAGE_KEY: &'static str = "video-storage-path";

/// The key of the retention in days.
pub const RETENTION_KEY: &'static str = "auto-delete-days";

/// The name of the network section.
pub const NETWORK_SECTION: &'static str = "network";

/// The key of the RPC port.
pub const PORT_KEY: &'static str = "rpc-port";

/// A field that holds text.
pub open spec fn text_entry(key: Seq<char>, value: Seq<char>) -> FieldView {
    FieldView { key, value: Some(ScalarView::Text(value)) }
}

/// A field that holds a number.
pub open spec fn number_entry(key: Seq<char>, value: int) -> FieldView {
    FieldView { key, value: Some(ScalarView::Integer(value as i64)) }
}

/// The document of a record: the three sections, each with its fields under
/// their hyphenated names. Sections and fields stand in the order of their
/// names, as the file has them.
pub open spec fn document_of(config: ConfigView) -> Seq<SectionView> {
    seq![
        SectionView {
            name: CAMERA_SECTION@,
            fields: Some(
                seq![
                    text_entry(BOARD_CAMERA_KEY@, config.camera.board_camera_id),
                    text_entry(POSTURE_CAMERA_KEY@, config.camera.posture_camera_id),
                    number_entry(FRAMERATE_KEY@, config.camera.video_framerate as int),
                    text_entry(RESOLUTION_KEY@, config.camera.video_resolution),
                ],
            ),
        },
        SectionView {
            name: DATA_SECTION@,
            fields: Some(
                seq![
                    number_entry(RETENTION_KEY@, config.data.auto_delete_days as int),
                    text_entry(DATABASE_KEY@, config.data.database_path),
                    text_entry(VIDEO_STORAGE_KEY@, config.data.video_storage_path),
                ],
            ),
        },
        SectionView {
            name: NETWORK_SECTION@,
            fields: Some(seq![number_entry(PORT_KEY@, config.network.rpc_port as int)]),
        },
    ]
}

/// What the first field under `key` holds; `None` where there is no such
/// field.
pub open spec fn value_at(fields: Seq<FieldView>, key: Seq<char>) -> Option<Option<ScalarView>>
    decreases fields.len(),
{
    if fields.len() == 0 {
        None
    } else if fields[0].key == key {
        Some(fields[0].value)
    } else {
        value_at(fields.drop_first(), key)
    }
}

/// What the first entry under `name` holds; `None` where there is no such
/// entry.
pub open spec fn section_at(document: Seq<SectionView>, name: Seq<char>) -> Option<
    Option<Seq<FieldView>>,
>
    decreases document.len(),
{
    if document.len() == 0 {
        None
    } else if document[0].name == name {
        Some(document[0].fields)
    } else {
        section_at(document.drop_first(), name)
    }
}

/// The text under `key`. Where the key is absent or holds something else, the
/// key itself comes back as the error.
pub open spec fn text_field(fields: Seq<FieldView>, key: Seq<char>) -> Result<Seq<char>, Seq<char>> {
    match value_at(fields, key) {
        Some(Some(ScalarView::Text(text))) => Ok(text),
        _ => Err(key),
    }
}

/// The number under `key`, which must lie between 0 and `max`. Where the key
/// is absent, holds something else or a number out of that range, the key
/// itself comes back as the error.
pub open spec fn number_field(fields: Seq<FieldView>, key: Seq<char>, max: int) -> Result<
    int,
    Seq<char>,
> {
    match value_at(fields, key) {
        Some(Some(ScalarView::Integer(number))) => if 0 <= number <= max {
            Ok(number as int)
        } else {
            Err(key)
        },
        _ => Err(key),
    }
}

/// The fields of the table under `name`. Where the name is absent or holds no
/// table, the name itself comes back as the error.
pub open spec fn table_field(document: Seq<SectionView>, name: Seq<char>) -> Result<
    Seq<FieldView>,
    Seq<char>,
> {
    match section_at(document, name) {
        Some(Some(fields)) => Ok(fields),
        _ => Err(name),
    }
}

/// The camera section read from its fields, or the first key in the order of
/// the record that has no valid value.
pub open spec fn camera_of(fields: Seq<FieldView>) -> Result<CameraConfigView, Seq<char>> {
    match text_field(fields, POSTURE_CAMERA_KEY@) {
        Err(key) => Err(key),
        Ok(posture_camera_id) => match text_field(fields, BOARD_CAMERA_KEY@) {
            Err(key) => Err(key),
            Ok(board_camera_id) => match text_field(fields, RESOLUTION_KEY@) {
                Err(key) => Err(key),
                Ok(video_resolution) => match number_field(
                    fields,
                    FRAMERATE_KEY@,
                    u32::MAX as int,
                ) {
                    Err(key) => Err(key),
                    Ok(framerate) => Ok(
                        CameraConfigView {
                            posture_camera_id,
                            board_camera_id,
                            video_resolution,
                            video_framerate: framerate as u32,
                        },
                    ),
                },
            },
        },
    }
}

/// The data section read from its fields, or the first key in the order of
/// the record that has no valid value.
pub open spec fn data_of(fields: Seq<FieldView>) -> Result<DataConfigView, Seq<char>> {
    match text_field(fields, DATABASE_KEY@) {
        Err(key) => Err(key),
        Ok(database_path) => match text_field(fields, VIDEO_STORAGE_KEY@) {
            Err(key) => Err(key),
            Ok(video_storage_path) => match number_field(fields, RETENTION_KEY@, u32::MAX as int) {
                Err(key) => Err(key),
                Ok(days) => Ok(
                    DataConfigView {
                        database_path,
                        video_storage_path,
                        auto_delete_days: days as u32,
                    },
                ),
            },
        },
    }
}

/// The network section read from its fields, or the key that has no valid
/// value.
pub open spec fn network_of(fields: Seq<FieldView>) -> Result<NetworkConfig, Seq<char>> {
    match number_field(fields, PORT_KEY@, u16::MAX as int) {
        Err(key) => Err(key),
        Ok(port) => Ok(NetworkConfig { rpc_port: port as u16 }),
    }
}

/// The record that a document holds, or the first name, in the order of the
/// record, under which the document has no valid value. Entries and fields
/// that the record does not know are passed over.
pub open spec fn config_of(document: Seq<SectionView>) -> Result<ConfigView, Seq<char>> {
    match table_field(document, CAMERA_SECTION@) {
        Err(name) => Err(name),
        Ok(camera_fields) => match camera_of(camera_fields) {
            Err(key) => Err(key),
            Ok(camera) => match table_field(document, DATA_SECTION@) {
                Err(name) => Err(name),
                Ok(data_fields) => match data_of(data_fields) {
                    Err(key) => Err(key),
                    Ok(data) => match table_field(document, NETWORK_SECTION@) {
                        Err(name) => Err(name),
                        Ok(network_fields) => match network_of(network_fields) {
                            Err(key) => Err(key),
                            Ok(network) => Ok(ConfigView { camera, data, network }),
                        },
                    },
                },
            },
        },
    }
}

/// The report for a name under which a document has no valid value.
pub open spec fn invalid_field_text(name: Seq<char>) -> Seq<char> {
    "no valid value for `"@ + name + "`"@
}

fn text_entry_of(key: &str, value: &String) -> (field: Field)
    ensures
        field@ == text_entry(key@, value@),
{
    Field { key: String::from_str(key), value: Some(Scalar::Text(value.clone())) }
}

fn number_entry_of(key: &str, value: u32) -> (field: Field)
    ensures
        field@ == number_entry(key@, value as int),
{
    Field { key: String::from_str(key), value: Some(Scalar::Integer(value as i64)) }
}

fn section_of(name: &str, fields: Vec<Field>) -> (section: Section)
    ensures
        section@ == (SectionView { name: name@, fields: Some(fields_view(&fields)) }),
{
    Section { name: String::from_str(name), fields: Some(fields) }
}

/// Lays a record out as a document.
pub fn document_from_config(config: &Config) -> (document: Vec<Section>)
    ensures
        document_view(&document) == document_of(config@),
        writable(document_view(&document)),
{
    let mut camera: Vec<Field> = Vec::new();
    camera.push(text_entry_of(BOARD_CAMERA_KEY, &config.camera.board_camera_id));
    camera.push(text_entry_of(POSTURE_CAMERA_KEY, &config.camera.posture_camera_id));
    camera.push(number_entry_of(FRAMERATE_KEY, config.camera.video_framerate));
    camera.push(text_entry_of(RESOLUTION_KEY, &config.camera.video_resolution));
    let mut data: Vec<Field> = Vec::new();
    data.push(number_entry_of(RETENTION_KEY, config.data.auto_delete_days));
    data.push(text_entry_of(DATABASE_KEY, &config.data.database_path));
    data.push(text_entry_of(VIDEO_STORAGE_KEY, &config.data.video_storage_path));
    let mut network: Vec<Field> = Vec::new();
    network.push(number_entry_of(PORT_KEY, config.network.rpc_port as u32));
    proof {
        let expected = document_of(config@);
        assert(fields_view(&camera) =~= expected[0].fields->0);
        assert(fields_view(&data) =~= expected[1].fields->0);
        assert(fields_view(&network) =~= expected[2].fields->0);
    }
    let mut document: Vec<Section> = Vec::new();
    document.push(section_of(CAMERA_SECTION, camera));
    document.push(section_of(DATA_SECTION, data));
    document.push(section_of(NETWORK_SECTION, network));
    assert(document_view(&document) =~= document_of(config@));
    document
}

/// The error for a name under which a document has no valid value.
fn invalid_field(name: &str) -> (error: ConfigError)
    ensures
        error@ == ConfigErrorView::TomlDeserialize(invalid_field_text(name@)),
{
    ConfigError::TomlDeserialize(
        String::from_str("no valid value for `").concat(name).concat("`"),
    )
}

fn find_value<'a>(fields: &'a Vec<Field>, key: &str) -> (found: Option<&'a Field>)
    ensures
        match found {
            Some(field) => value_at(fields_view(fields), key@) == Some(field@.value),
            None => value_at(fields_view(fields), key@) is None,
        },
{
    let wanted = String::from_str(key);
    let ghost all = fields_view(fields);
    let mut index: usize = 0;
    assert(all.skip(0) =~= all);
    while index < fields.len()
        invariant
            index <= fields.len(),
            wanted@ == key@,
            all == fields_view(fields),
            value_at(all, key@) == value_at(all.skip(index as int), key@),
        decreases fields.len() - index,
    {
        if fields[index].key == wanted {
            return Some(&fields[index]);
        }
        assert(all.skip(index as int).drop_first() =~= all.skip(index as int + 1));
        index = index + 1;
    }
    None
}

fn find_section<'a>(document: &'a Vec<Section>, name: &str) -> (found: Option<&'a Section>)
    ensures
        match found {
            Some(section) => section_at(document_view(document), name@) == Some(section@.fields),
            None => section_at(document_view(document), name@) is None,
        },
{
    let wanted = String::from_str(name);
    let ghost all = document_view(document);
    let mut index: usize = 0;
    assert(all.skip(0) =~= all);
    while index < document.len()
        invariant
            index <= document.len(),
            wanted@ == name@,
            all == document_view(document),
            section_at(all, name@) == section_at(all.skip(index as int), name@),
        decreases document.len() - index,
    {
        if document[index].name == wanted {
            return Some(&document[index]);
        }
        assert(all.skip(index as int).drop_first() =~= all.skip(index as int + 1));
        index = index + 1;
    }
    None
}

fn read_text(fields: &Vec<Field>, key: &str) -> (outcome: Result<String, ConfigError>)
    ensures
        match outcome {
            Ok(text) => text_field(fields_view(fields), key@) == Ok::<Seq<char>, Seq<char>>(text@),
            Err(error) => text_field(fields_view(fields), key@) is Err && error@
                == ConfigErrorView::TomlDeserialize(invalid_field_text(key@)),
        },
{
    match find_value(fields, key) {
        Some(field) => match &field.value {
            Some(Scalar::Text(text)) => Ok(text.clone()),
            _ => Err(invalid_field(key)),
        },
        None => Err(invalid_field(key)),
    }
}

fn read_number(fields: &Vec<Field>, key: &str, max: u32) -> (outcome: Result<u32, ConfigError>)
    ensures
        match outcome {
            Ok(number) => number_field(fields_view(fields), key@, max as int) == Ok::<
                int,
                Seq<char>,
            >(number as int),
            Err(error) => number_field(fields_view(fields), key@, max as int) is Err && error@
                == ConfigErrorView::TomlDeserialize(invalid_field_text(key@)),
        },
{
    match find_value(fields, key) {
        Some(field) => match &field.value {
            Some(Scalar::Integer(number)) => {
                if 0 <= *number && *number <= max as i64 {
                    Ok(*number as u32)
                } else {
                    Err(invalid_field(key))
                }
            },
            _ => Err(invalid_field(key)),
        },
        None => Err(invalid_field(key)),
    }
}

fn read_table<'a>(document: &'a Vec<Section>, name: &str) -> (outcome: Result<
    &'a Vec<Field>,
    ConfigError,
>)
    ensures
        match outcome {
            Ok(fields) => table_field(document_view(document), name@) == Ok::<
                Seq<FieldView>,
                Seq<char>,
            >(fields_view(fields)),
            Err(error) => table_field(document_view(document), name@) is Err && error@
                == ConfigErrorView::TomlDeserialize(invalid_field_text(name@)),
        },
{
    match find_section(document, name) {
        Some(section) => match &section.fields {
            Some(fields) => Ok(fields),
            None => Err(invalid_field(name)),
        },
        None => Err(invalid_field(name)),
    }
}

/// Mathematical value of what reading a record gives.
pub open spec fn read_view(outcome: Result<Config, ConfigError>) -> Result<
    ConfigView,
    ConfigErrorView,
> {
    match outcome {
        Ok(config) => Ok(config@),
        Err(error) => Err(error@),
    }
}

/// What reading a document gives: its record, or a
/// [`ConfigError::TomlDeserialize`] that names what has no valid value.
pub open spec fn config_from(document: Seq<SectionView>) -> Result<ConfigView, ConfigErrorView> {
    match config_of(document) {
        Ok(config) => Ok(config),
        Err(name) => Err(ConfigErrorView::TomlDeserialize(invalid_field_text(name))),
    }
}

fn read_camera(fields: &Vec<Field>) -> (outcome: Result<CameraConfig, ConfigError>)
    ensures
        match outcome {
            Ok(camera) => camera_of(fields_view(fields)) == Ok::<CameraConfigView, Seq<char>>(
                camera@,
            ),
            Err(error) => camera_of(fields_view(fields)) matches Err(key) && error@
                == ConfigErrorView::TomlDeserialize(invalid_field_text(key)),
        },
{
    let posture_camera_id = read_text(fields, POSTURE_CAMERA_KEY)?;
    let board_camera_id = read_text(fields, BOARD_CAMERA_KEY)?;
    let video_resolution = read_text(fields, RESOLUTION_KEY)?;
    let video_framerate = read_number(fields, FRAMERATE_KEY, u32::MAX)?;
    Ok(CameraConfig { posture_camera_id, board_camera_id, video_resolution, video_framerate })
}

fn read_data(fields: &Vec<Field>) -> (outcome: Result<DataConfig, ConfigError>)
    ensures
        match outcome {
            Ok(data) => data_of(fields_view(fields)) == Ok::<DataConfigView, Seq<char>>(data@),
            Err(error) => data_of(fields_view(fields)) matches Err(key) && error@
                == ConfigErrorView::TomlDeserialize(invalid_field_text(key)),
        },
{
    let database_path = read_text(fields, DATABASE_KEY)?;
    let video_storage_path = read_text(fields, VIDEO_STORAGE_KEY)?;
    let auto_delete_days = read_number(fields, RETENTION_KEY, u32::MAX)?;
    Ok(DataConfig { database_path, video_storage_path, auto_delete_days })
}

fn read_network(fields: &Vec<Field>) -> (outcome: Result<NetworkConfig, ConfigError>)
    ensures
        match outcome {
            Ok(network) => network_of(fields_view(fields)) == Ok::<NetworkConfig, Seq<char>>(
                network,
            ),
            Err(error) => network_of(fields_view(fields)) matches Err(key) && error@
                == ConfigErrorView::TomlDeserialize(invalid_field_text(key)),
        },
{
    let port = read_number(fields, PORT_KEY, 65535)?;
    Ok(NetworkConfig { rpc_port: port as u16 })
}

/// Reads the record that a document holds.
///
/// Every field of the record must be there under its name, with a value of
/// its kind and, for a number, in the range of its type. Anything else in the
/// document is passed over.
pub fn config_from_document(document: &Vec<Section>) -> (outcome: Result<Config, ConfigError>)
    ensures
        read_view(outcome) == config_from(document_view(document)),
{
    let camera = read_camera(read_table(document, CAMERA_SECTION)?)?;
    let data = read_data(read_table(document, DATA_SECTION)?)?;
    let network = read_network(read_table(document, NETWORK_SECTION)?)?;
    Ok(Config { camera, data, network })
}

/// The record that a text holds; `None` where the text is not TOML or its
/// document holds no record.
pub open spec fn read_config(text: Seq<char>) -> Option<ConfigView> {
    match parsed(text) {
        Some(document) => match config_of(document) {
            Ok(config) => Some(config),
            Err(_) => None,
        },
        None => None,
    }
}

/// Reads a record from the text of a configuration file.
///
/// Where the text is TOML, the outcome is that of reading its document.
/// Where it is not, the error is a [`ConfigError::TomlDeserialize`] with the
/// parser's report.
pub fn parse_config(text: &str) -> (outcome: Result<Config, ConfigError>)
    ensures
        match parsed(text@) {
            Some(document) => read_view(outcome) == config_from(document),
            None => outcome matches Err(error) && error is TomlDeserialize,
        },
{
    match parse_document(text) {
        Ok(document) => config_from_document(&document),
        Err(error) => Err(ConfigError::TomlDeserialize(parse_failure_text(&error))),
    }
}

/// The report for a text that the serializer gave and that does not read
/// back as the record it was made from.
pub const UNFAITHFUL_TEXT: &'static str = "the text does not read back as the record";

/// The text that a record is stored as: what the serializer gives for its
/// document, provided that it reads back as the same record.
pub open spec fn stored_text(config: ConfigView) -> Option<Seq<char>> {
    match rendered(document_of(config)) {
        Some(text) => if read_config(text) == Some(config) {
            Some(text)
        } else {
            None
        },
        None => None,
    }
}

/// Writes a record as the text of a configuration file.
///
/// The text is read back before it is handed out, so a text that comes out of
/// here always holds the record it was made from. The error is a
/// [`ConfigError::TomlSerialize`]: with the serializer's report where it
/// refused, with [`UNFAITHFUL_TEXT`] where its text did not read back.
pub fn serialize_config(config: &Config) -> (outcome: Result<String, ConfigError>)
    ensures
        match outcome {
            Ok(text) => stored_text(config@) == Some(text@),
            Err(error) => stored_text(config@) is None && error is TomlSerialize,
        },
        rendered(document_of(config@)) is Some && stored_text(config@) is None ==> (outcome
            matches Err(error) && error@ == ConfigErrorView::TomlSerialize(UNFAITHFUL_TEXT@)),
{
    let document = document_from_config(config);
    match render_document(&document) {
        Ok(text) => {
            let faithful = match parse_config(text.as_str()) {
                Ok(back) => back == *config,
                Err(_) => false,
            };
            if faithful {
                Ok(text)
            } else {
                Err(ConfigError::TomlSerialize(String::from_str(UNFAITHFUL_TEXT)))
            }
        },
        Err(error) => Err(ConfigError::TomlSerialize(render_failure_text(&error))),
    }
}

proof fn lemma_names_differ()
    ensures
        CAMERA_SECTION@ != DATA_SECTION@,
        CAMERA_SECTION@ != NETWORK_SECTION@,
        DATA_SECTION@ != NETWORK_SECTION@,
        POSTURE_CAMERA_KEY@ != BOARD_CAMERA_KEY@,
        POSTURE_CAMERA_KEY@ != RESOLUTION_KEY@,
        POSTURE_CAMERA_KEY@ != FRAMERATE_KEY@,
        BOARD_CAMERA_KEY@ != RESOLUTION_KEY@,
        BOARD_CAMERA_KEY@ != FRAMERATE_KEY@,
        RESOLUTION_KEY@ != FRAMERATE_KEY@,
        DATABASE_KEY@ != VIDEO_STORAGE_KEY@,
        DATABASE_KEY@ != RETENTION_KEY@,
        VIDEO_STORAGE_KEY@ != RETENTION_KEY@,
{
    reveal_strlit("camera");
    reveal_strlit("data");
    reveal_strlit("network");
    reveal_strlit("posture-camera-id");
    reveal_strlit("board-camera-id");
    reveal_strlit("video-resolution");
    reveal_strlit("video-framerate");
    reveal_strlit("database-path");
    reveal_strlit("video-storage-path");
    reveal_strlit("auto-delete-days");
    assert(CAMERA_SECTION@.len() == 6 && DATA_SECTION@.len() == 4 && NETWORK_SECTION@.len() == 7);
    assert(POSTURE_CAMERA_KEY@.len() == 17 && BOARD_CAMERA_KEY@.len() == 15);
    assert(RESOLUTION_KEY@.len() == 16 && FRAMERATE_KEY@.len() == 15);
    assert(DATABASE_KEY@.len() == 13 && VIDEO_STORAGE_KEY@.len() == 18);
    assert(RETENTION_KEY@.len() == 16);
    assert(BOARD_CAMERA_KEY@[0] == 'b' && FRAMERATE_KEY@[0] == 'v');
}

/// A record laid out as a document and read back is the same record.
pub proof fn lemma_document_round_trip(config: ConfigView)
    ensures
        config_of(document_of(config)) == Ok::<ConfigView, Seq<char>>(config),
{
    lemma_names_differ();
    reveal_with_fuel(value_at, 5);
    reveal_with_fuel(section_at, 4);
}

/// A text that a record is stored as holds that record.
pub proof fn lemma_stored_text_reads_back(config: ConfigView, text: Seq<char>)
    requires
        stored_text(config) == Some(text),
    ensures
        read_config(text) == Some(config),
{
}

/// Every record has a stored text, as long as the serializer accepts its
/// document and the parser finds that same document in the text.
pub proof fn lemma_faithful_text_is_stored(config: ConfigView, text: Seq<char>)
    requires
        rendered(document_of(config)) == Some(text),
        parsed(text) == Some(document_of(config)),
    ensures
        stored_text(config) == Some(text),
{
    lemma_document_round_trip(config);
}

} // verus!
