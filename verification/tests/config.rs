use renxin_core::codec::{
    config_from_document, document_from_config, parse_config, serialize_config,
};
use renxin_core::config::{CameraConfig, Config, ConfigError, DataConfig, NetworkConfig};
use renxin_core::document::{Field, Scalar, Section};
use renxin_core::state::{default_config, load_or_create_config, AppState};
use std::path::Path;

fn joined(dir: &str, name: &str) -> String {
    Path::new(dir).join(name).to_str().unwrap().to_string()
}

#[test]
fn test_create_default_config() {
    let dir = tempfile::tempdir().unwrap();
    let app_data_dir = dir.path().to_str().unwrap();
    let loaded = load_or_create_config(app_data_dir, None).unwrap();
    let config = &loaded.state.config;
    assert_eq!(loaded.state.config_path, joined(app_data_dir, "config.toml"));
    assert_eq!(config.camera.video_framerate, 30);
    assert_eq!(config.network.rpc_port, 8080);
    assert_eq!(config.data.database_path, joined(app_data_dir, "data.db"));
    assert_eq!(config.data.video_storage_path, joined(app_data_dir, "videos"));
    let toml_string = loaded.to_write.unwrap();
    let loaded_config = parse_config(&toml_string).unwrap();
    assert_eq!(*config, loaded_config);
}

#[test]
fn test_load_existing_config() {
    let dir = tempfile::tempdir().unwrap();
    let app_data_dir = dir.path().to_str().unwrap();
    let mut custom_config = Config::default();
    custom_config.network.rpc_port = 9999;
    let toml_string = serialize_config(&custom_config).unwrap();
    let loaded = load_or_create_config(app_data_dir, Some(&toml_string)).unwrap();
    assert_eq!(loaded.state.config.network.rpc_port, 9999);
    assert_eq!(loaded.state.config, custom_config);
    assert_eq!(loaded.to_write, None);
}

#[test]
fn test_load_invalid_config() {
    let dir = tempfile::tempdir().unwrap();
    let app_data_dir = dir.path().to_str().unwrap();
    let result = load_or_create_config(app_data_dir, Some("this is not valid toml"));
    assert!(result.is_err());
    assert!(matches!(result, Err(ConfigError::TomlDeserialize(_))));
}

#[test]
fn default_record_has_the_documented_values() {
    let config = Config::default();
    assert_eq!(config.camera.posture_camera_id, "");
    assert_eq!(config.camera.board_camera_id, "");
    assert_eq!(config.camera.video_resolution, "1280x720");
    assert_eq!(config.camera.video_framerate, 30);
    assert_eq!(config.data.database_path, "");
    assert_eq!(config.data.video_storage_path, "");
    assert_eq!(config.data.auto_delete_days, 90);
    assert_eq!(config.network.rpc_port, 8080);
    let placed = default_config("/var/lib/renxin");
    assert_eq!(placed.data.database_path, joined("/var/lib/renxin", "data.db"));
    assert_eq!(placed.data.video_storage_path, joined("/var/lib/renxin", "videos"));
    assert_eq!(placed.camera, config.camera);
    assert_eq!(placed.network, config.network);
}

#[test]
fn second_load_returns_the_same_record() {
    let first = load_or_create_config("/srv/app", None).unwrap();
    let text = first.to_write.clone().unwrap();
    let second = load_or_create_config("/srv/app", Some(&text)).unwrap();
    assert_eq!(second.state.config, first.state.config);
    assert_eq!(second.state.config_path, first.state.config_path);
    assert_eq!(second.to_write, None);
}

#[test]
fn file_has_three_sections_with_hyphenated_keys() {
    let text = serialize_config(&default_config("/srv/app")).unwrap();
    let expected = "[camera]\n\
        board-camera-id = \"\"\n\
        posture-camera-id = \"\"\n\
        video-framerate = 30\n\
        video-resolution = \"1280x720\"\n\
        \n\
        [data]\n\
        auto-delete-days = 90\n\
        database-path = \"/srv/app/data.db\"\n\
        video-storage-path = \"/srv/app/videos\"\n\
        \n\
        [network]\n\
        rpc-port = 8080\n";
    assert_eq!(text, expected);
}

#[test]
fn round_trip_keeps_every_field() {
    let config = Config {
        camera: CameraConfig {
            posture_camera_id: "cam \"A\"\n\\0".to_string(),
            board_camera_id: "板カメラ".to_string(),
            video_resolution: "1920x1080".to_string(),
            video_framerate: u32::MAX,
        },
        data: DataConfig {
            database_path: "C:\\Users\\me\\data.db".to_string(),
            video_storage_path: "/mnt/videos with space".to_string(),
            auto_delete_days: 0,
        },
        network: NetworkConfig { rpc_port: u16::MAX },
    };
    let text = serialize_config(&config).unwrap();
    assert_eq!(parse_config(&text), Ok(config.clone()));
    assert_eq!(config_from_document(&document_from_config(&config)), Ok(config));
}

#[test]
fn file_in_field_order_is_read() {
    let text = "[camera]\n\
        posture-camera-id = \"usb-1\"\n\
        board-camera-id = \"usb-2\"\n\
        video-resolution = \"640x480\"\n\
        video-framerate = 60\n\
        \n\
        [data]\n\
        database-path = \"/d/data.db\"\n\
        video-storage-path = \"/d/videos\"\n\
        auto-delete-days = 7\n\
        \n\
        [network]\n\
        rpc-port = 9000\n";
    let config = parse_config(text).unwrap();
    assert_eq!(config.camera.posture_camera_id, "usb-1");
    assert_eq!(config.camera.board_camera_id, "usb-2");
    assert_eq!(config.camera.video_resolution, "640x480");
    assert_eq!(config.camera.video_framerate, 60);
    assert_eq!(config.data.database_path, "/d/data.db");
    assert_eq!(config.data.video_storage_path, "/d/videos");
    assert_eq!(config.data.auto_delete_days, 7);
    assert_eq!(config.network.rpc_port, 9000);
}

fn valid_text() -> String {
    serialize_config(&default_config("/srv/app")).unwrap()
}

fn deserialize_error(name: &str) -> Result<Config, ConfigError> {
    Err(ConfigError::TomlDeserialize(format!("no valid value for `{}`", name)))
}

#[test]
fn unknown_entries_are_passed_over() {
    let text = format!("title = \"x\"\n{}extra = true\n\n[other]\nkey = 1.5\n", valid_text());
    assert_eq!(parse_config(&text), Ok(default_config("/srv/app")));
}

#[test]
fn missing_section_is_named() {
    let text = valid_text().replace("[network]\nrpc-port = 8080\n", "");
    assert_eq!(parse_config(&text), deserialize_error("network"));
    assert_eq!(parse_config(""), deserialize_error("camera"));
}

#[test]
fn missing_field_is_named() {
    let text = valid_text().replace("video-framerate = 30\n", "");
    assert_eq!(parse_config(&text), deserialize_error("video-framerate"));
}

#[test]
fn field_of_another_kind_is_named() {
    let text = valid_text().replace("rpc-port = 8080", "rpc-port = \"8080\"");
    assert_eq!(parse_config(&text), deserialize_error("rpc-port"));
    let text = valid_text().replace("video-resolution = \"1280x720\"", "video-resolution = 720");
    assert_eq!(parse_config(&text), deserialize_error("video-resolution"));
    let text = valid_text().replace("auto-delete-days = 90", "auto-delete-days = 90.0");
    assert_eq!(parse_config(&text), deserialize_error("auto-delete-days"));
}

#[test]
fn section_that_is_no_table_is_named() {
    let text = format!("data = 3\n{}", valid_text().replace(
        "[data]\nauto-delete-days = 90\ndatabase-path = \"/srv/app/data.db\"\n\
         video-storage-path = \"/srv/app/videos\"\n",
        "",
    ));
    assert_eq!(parse_config(&text), deserialize_error("data"));
}

#[test]
fn numbers_out_of_range_are_refused() {
    let text = valid_text().replace("rpc-port = 8080", "rpc-port = 65536");
    assert_eq!(parse_config(&text), deserialize_error("rpc-port"));
    let text = valid_text().replace("rpc-port = 8080", "rpc-port = 65535");
    assert_eq!(parse_config(&text).unwrap().network.rpc_port, 65535);
    let text = valid_text().replace("video-framerate = 30", "video-framerate = -1");
    assert_eq!(parse_config(&text), deserialize_error("video-framerate"));
    let text = valid_text().replace("auto-delete-days = 90", "auto-delete-days = 4294967296");
    assert_eq!(parse_config(&text), deserialize_error("auto-delete-days"));
    let text = valid_text().replace("auto-delete-days = 90", "auto-delete-days = 4294967295");
    assert_eq!(parse_config(&text).unwrap().data.auto_delete_days, u32::MAX);
}

#[test]
fn first_invalid_name_in_record_order_is_reported() {
    let text = valid_text()
        .replace("board-camera-id = \"\"\n", "")
        .replace("posture-camera-id = \"\"\n", "")
        .replace("rpc-port = 8080", "rpc-port = true");
    assert_eq!(parse_config(&text), deserialize_error("posture-camera-id"));
}

#[test]
fn first_of_two_fields_with_one_key_counts() {
    let field = |key: &str, value: Scalar| Field { key: key.to_string(), value: Some(value) };
    let mut document = document_from_config(&Config::default());
    let network = document.iter_mut().find(|section| section.name == "network").unwrap();
    network.fields = Some(vec![
        field("rpc-port", Scalar::Integer(1)),
        field("rpc-port", Scalar::Integer(2)),
    ]);
    document.push(Section { name: "network".to_string(), fields: None });
    assert_eq!(config_from_document(&document).unwrap().network.rpc_port, 1);
}

#[test]
fn error_messages_carry_a_heading() {
    assert_eq!(ConfigError::Io("disk full".to_string()).message(), "File I/O error: disk full");
    assert_eq!(
        ConfigError::TomlSerialize("bad".to_string()).message(),
        "TOML serialization error: bad"
    );
    assert_eq!(
        ConfigError::TomlDeserialize("worse".to_string()).message(),
        "TOML deserialization error: worse"
    );
}

#[test]
fn store_hands_out_snapshots() {
    let mut state = AppState::new(Config::default(), "/srv/app/config.toml".to_string());
    let before = state.get();
    assert_eq!(before, Config::default());
    let mut new = Config::default();
    new.camera.video_framerate = 0;
    new.network.rpc_port = 0;
    let text = state.replace_and_persist(new.clone()).unwrap();
    assert_eq!(state.get(), new);
    assert_eq!(before, Config::default());
    assert_eq!(state.config_path, "/srv/app/config.toml");
    assert_eq!(parse_config(&text), Ok(new));
}

#[test]
fn round_trip_keeps_unusual_text() {
    let texts = [
        "",
        " ",
        "line one\nline two",
        "carriage\r\nreturn",
        "tab\there",
        "nul\0inside",
        "del\u{7f} and bell\u{7}",
        "quotes ' \" ''' \"\"\" end",
        "back\\slash \\n \\u0041",
        "# not a comment = [x]",
        "\u{feff}bom \u{ffff} \u{10ffff} \u{1f3af}",
        "trailing space ",
    ];
    for text in texts {
        let mut config = default_config("/srv/app");
        config.camera.posture_camera_id = text.to_string();
        config.camera.video_resolution = text.to_string();
        config.data.database_path = text.to_string();
        let written = serialize_config(&config).unwrap();
        assert_eq!(parse_config(&written), Ok(config));
    }
}
