use std::collections::HashMap;

use thiery_core::error::{fault_message, ConfigError};
use thiery_core::settings::{Config, Fault, Field};
use thiery_core::store::{Action, Event, Job, CONFIG_PATH};

#[derive(Clone, Copy, PartialEq)]
enum Fail {
    Nothing,
    Write,
    Rename,
}

/// Performs the job's operations on an in-memory file system, failing the one
/// that `fail` names. A failed write leaves half of the text behind.
fn drive(mut job: Job, files: &mut HashMap<String, String>, fail: Fail) -> Result<bool, ConfigError> {
    loop {
        match job.action() {
            Action::CheckExists { path } => {
                let exists = files.contains_key(&path);
                job.step(Event::Exists(exists));
            }
            Action::Write { path, data } => {
                if fail == Fail::Write {
                    files.insert(path, data[..data.len() / 2].to_string());
                    job.step(Event::Completed(Err("No space left on device".to_string())));
                } else {
                    files.insert(path, data);
                    job.step(Event::Completed(Ok(())));
                }
            }
            Action::Rename { from, to } => {
                if fail == Fail::Rename {
                    job.step(Event::Completed(Err("Permission denied".to_string())));
                } else {
                    let data = files.remove(&from).expect("renamed file exists");
                    files.insert(to, data);
                    job.step(Event::Completed(Ok(())));
                }
            }
            Action::Finish => return job.finish(),
        }
    }
}

fn load_from(files: &HashMap<String, String>, path: &str) -> Result<Config, ConfigError> {
    let read = match files.get(path) {
        Some(text) => Ok(text.clone()),
        None => Err("No such file or directory".to_string()),
    };
    Config::load(path, read)
}

fn sample() -> Config {
    Config {
        port: 8080,
        servers: vec!["10.0.0.1:80".to_string(), "10.0.0.2:8080".to_string()],
        preferred_algorithm: "round_robin".to_string(),
    }
}

#[test]
fn test_init() {
    let mut files = HashMap::new();
    let r = drive(Config::init(CONFIG_PATH), &mut files, Fail::Nothing);
    assert!(matches!(r, Ok(true)));
    assert!(files.contains_key(CONFIG_PATH));
}

#[test]
fn test_load_default() {
    let files = HashMap::new();
    assert!(load_from(&files, CONFIG_PATH).is_err());
}

#[test]
fn test_save_load() {
    let mut files = HashMap::new();
    let mut config = Config::default();
    config.port = 8888;
    assert!(drive(config.save(CONFIG_PATH), &mut files, Fail::Nothing).is_ok());
    let loaded_config = load_from(&files, CONFIG_PATH).unwrap();
    assert!(config == loaded_config);
}

#[test]
fn default_settings() {
    let c = Config::default();
    assert_eq!(c.port, 20925);
    assert!(c.servers.is_empty());
    assert_eq!(c.preferred_algorithm, "random");
}

#[test]
fn round_trip_keeps_every_field() {
    let mut files = HashMap::new();
    let c = sample();
    drive(c.save("settings.json"), &mut files, Fail::Nothing).unwrap();
    let back = load_from(&files, "settings.json").unwrap();
    assert_eq!(back.port, 8080);
    assert_eq!(back.servers, vec!["10.0.0.1:80".to_string(), "10.0.0.2:8080".to_string()]);
    assert_eq!(back.preferred_algorithm, "round_robin");
    assert!(back == c);
}

#[test]
fn round_trip_extreme_ports() {
    for port in [0u16, 65535u16] {
        let mut files = HashMap::new();
        let mut c = sample();
        c.port = port;
        drive(c.save(CONFIG_PATH), &mut files, Fail::Nothing).unwrap();
        assert!(load_from(&files, CONFIG_PATH).unwrap() == c);
    }
}

#[test]
fn saved_text_is_pretty_json() {
    let mut files = HashMap::new();
    drive(Config::default().save(CONFIG_PATH), &mut files, Fail::Nothing).unwrap();
    assert_eq!(
        files[CONFIG_PATH],
        "{\n  \"port\": 20925,\n  \"preferred_algorithm\": \"random\",\n  \"servers\": []\n}"
    );
}

#[test]
fn failed_rename_keeps_old_content() {
    let mut files = HashMap::new();
    files.insert(CONFIG_PATH.to_string(), "old content".to_string());
    let r = drive(sample().save(CONFIG_PATH), &mut files, Fail::Rename);
    assert_eq!(files[CONFIG_PATH], "old content");
    match r {
        Err(ConfigError::IoError { path, to, cause }) => {
            assert_eq!(path, "config.json.tmp");
            assert_eq!(to, Some("config.json".to_string()));
            assert_eq!(cause, "Permission denied");
        }
        _ => panic!("expected an I/O error"),
    }
}

#[test]
fn failed_write_keeps_old_content() {
    let mut files = HashMap::new();
    files.insert(CONFIG_PATH.to_string(), "old content".to_string());
    let r = drive(sample().save(CONFIG_PATH), &mut files, Fail::Write);
    assert_eq!(files[CONFIG_PATH], "old content");
    match r {
        Err(ConfigError::IoError { path, to, .. }) => {
            assert_eq!(path, "config.json.tmp");
            assert_eq!(to, None);
        }
        _ => panic!("expected an I/O error"),
    }
}

#[test]
fn failed_save_creates_no_target() {
    let mut files = HashMap::new();
    assert!(drive(sample().save(CONFIG_PATH), &mut files, Fail::Rename).is_err());
    assert!(!files.contains_key(CONFIG_PATH));
}

#[test]
fn no_temp_file_after_save() {
    let mut files = HashMap::new();
    drive(sample().save(CONFIG_PATH), &mut files, Fail::Nothing).unwrap();
    assert!(files.keys().all(|k| !k.ends_with(".tmp")));
    assert_eq!(files.len(), 1);
}

#[test]
fn init_twice_changes_nothing() {
    let mut files = HashMap::new();
    assert!(matches!(drive(Config::init(CONFIG_PATH), &mut files, Fail::Nothing), Ok(true)));
    let first = files.clone();
    assert!(matches!(drive(Config::init(CONFIG_PATH), &mut files, Fail::Nothing), Ok(false)));
    assert_eq!(files, first);
}

#[test]
fn init_leaves_existing_file_alone() {
    let mut files = HashMap::new();
    files.insert(CONFIG_PATH.to_string(), "hand edited".to_string());
    assert!(matches!(drive(Config::init(CONFIG_PATH), &mut files, Fail::Write), Ok(false)));
    assert_eq!(files[CONFIG_PATH], "hand edited");
}

#[test]
fn init_then_load_gives_defaults() {
    let mut files = HashMap::new();
    drive(Config::init(CONFIG_PATH), &mut files, Fail::Nothing).unwrap();
    let c = load_from(&files, CONFIG_PATH).unwrap();
    assert_eq!(c.port, 20925);
    assert!(c.servers.is_empty());
    assert_eq!(c.preferred_algorithm, "random");
}

#[test]
fn init_with_failed_write_reports_error() {
    let mut files = HashMap::new();
    let r = drive(Config::init(CONFIG_PATH), &mut files, Fail::Write);
    assert!(matches!(r, Err(ConfigError::IoError { .. })));
    assert!(!files.contains_key(CONFIG_PATH));
}

#[test]
fn missing_file_is_io_error() {
    match Config::load("absent.json", Err("No such file or directory".to_string())) {
        Err(ConfigError::IoError { path, to, cause }) => {
            assert_eq!(path, "absent.json");
            assert_eq!(to, None);
            assert_eq!(cause, "No such file or directory");
        }
        _ => panic!("expected an I/O error"),
    }
}

#[test]
fn port_of_wrong_type_is_malformed() {
    match Config::parse("{\"port\": \"not-a-number\"}") {
        Err(ConfigError::MalformedConfig { fault, detail }) => {
            assert_eq!(fault, Fault::Invalid(Field::Port));
            assert!(detail.contains("port"));
        }
        _ => panic!("expected a malformed config"),
    }
}

#[test]
fn text_that_is_not_json_is_malformed() {
    match Config::parse("{\"port\": 1,") {
        Err(ConfigError::MalformedConfig { fault, detail }) => {
            assert_eq!(fault, Fault::Syntax);
            assert!(detail.contains("line 1"));
        }
        _ => panic!("expected a malformed config"),
    }
}

#[test]
fn missing_member_is_named() {
    let r = Config::parse("{\"port\": 1, \"preferred_algorithm\": \"random\"}");
    assert!(matches!(
        r,
        Err(ConfigError::MalformedConfig { fault: Fault::Missing(Field::Servers), .. })
    ));
}

#[test]
fn document_that_is_not_an_object() {
    let r = Config::parse("[1, 2]");
    assert!(matches!(r, Err(ConfigError::MalformedConfig { fault: Fault::NotAnObject, .. })));
}

#[test]
fn port_out_of_range_is_malformed() {
    for text in [
        "{\"port\": 65536, \"servers\": [], \"preferred_algorithm\": \"random\"}",
        "{\"port\": -1, \"servers\": [], \"preferred_algorithm\": \"random\"}",
        "{\"port\": 80.5, \"servers\": [], \"preferred_algorithm\": \"random\"}",
    ] {
        let r = Config::parse(text);
        assert!(matches!(
            r,
            Err(ConfigError::MalformedConfig { fault: Fault::Invalid(Field::Port), .. })
        ));
    }
}

#[test]
fn servers_must_be_strings() {
    let r = Config::parse("{\"port\": 1, \"servers\": [\"a:1\", 2], \"preferred_algorithm\": \"x\"}");
    assert!(matches!(
        r,
        Err(ConfigError::MalformedConfig { fault: Fault::Invalid(Field::Servers), .. })
    ));
}

#[test]
fn algorithm_must_be_a_string() {
    let r = Config::parse("{\"port\": 1, \"servers\": [], \"preferred_algorithm\": 3}");
    assert!(matches!(
        r,
        Err(ConfigError::MalformedConfig {
            fault: Fault::Invalid(Field::PreferredAlgorithm),
            ..
        })
    ));
}

#[test]
fn extra_members_are_ignored() {
    let c = Config::parse(
        "{\"version\": 2, \"port\": 7, \"servers\": [\"h:1\"], \"preferred_algorithm\": \"least\"}",
    )
    .unwrap();
    assert_eq!(c.port, 7);
    assert_eq!(c.servers, vec!["h:1".to_string()]);
    assert_eq!(c.preferred_algorithm, "least");
}

#[test]
fn equality_compares_every_field() {
    let a = sample();
    let mut b = sample();
    assert!(a == b);
    b.servers.reverse();
    assert!(a != b);
    let mut c = sample();
    c.preferred_algorithm = "random".to_string();
    assert!(a != c);
}

#[test]
fn fault_messages_name_the_member() {
    assert_eq!(fault_message(Fault::Missing(Field::Port)), "missing field `port`");
    assert_eq!(
        fault_message(Fault::Invalid(Field::Servers)),
        "invalid value for field `servers`: expected an array of strings"
    );
}

#[test]
fn save_stopped_before_rename_keeps_old_content() {
    let mut files = HashMap::new();
    files.insert(CONFIG_PATH.to_string(), "old content".to_string());
    let mut job = sample().save(CONFIG_PATH);
    match job.action() {
        Action::Write { path, data } => {
            assert_eq!(path, "config.json.tmp");
            files.insert(path, data);
            job.step(Event::Completed(Ok(())));
        }
        _ => panic!("a save writes first"),
    }
    assert!(matches!(job.action(), Action::Rename { .. }));
    assert!(!job.is_done());
    assert_eq!(files[CONFIG_PATH], "old content");
}

#[test]
fn save_always_has_text_to_write() {
    let job = sample().save(CONFIG_PATH);
    assert!(!job.is_done());
    match job.action() {
        Action::Write { path, data } => {
            assert_eq!(path, "config.json.tmp");
            assert!(data.contains("\"round_robin\""));
        }
        _ => panic!("a save writes first"),
    }
}

#[test]
fn malformed_detail_names_the_member() {
    match Config::parse("{\"port\": 1, \"servers\": {}, \"preferred_algorithm\": \"x\"}") {
        Err(ConfigError::MalformedConfig { fault, detail }) => {
            assert_eq!(fault, Fault::Invalid(Field::Servers));
            assert_eq!(detail, "invalid value for field `servers`: expected an array of strings");
        }
        _ => panic!("expected a malformed config"),
    }
}
