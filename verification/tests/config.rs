use wrec::config::{config_path, default_wrec_dir, legacy_config_paths, log_path, store_path, wrec_dir, AppConfig};
use wrec::control::{daemon_log_path, default_wrec_home, job_events_path, socket_path, wrec_home};
use wrec::settings::{Quality, Resolution};

fn s(text: &str) -> String {
    text.to_string()
}

#[test]
fn first_run_configuration_uses_default_settings() {
    let config = AppConfig::with_output_dir(s("/home/me/Movies/Wrec"));
    assert_eq!(config.settings.output_dir, "/home/me/Movies/Wrec");
    assert_eq!(config.settings.quality, Quality::Balanced);
    assert_eq!(config.settings.resolution, Resolution::R1080p);
    assert_eq!(config.selected_target_key, None);
    assert!(!config.show_nerd_logs);
}

#[test]
fn data_files_live_in_the_data_folder() {
    let dir = s("/home/me/.wrec");
    assert_eq!(config_path(&dir), "/home/me/.wrec/config.json");
    assert_eq!(store_path(&dir), "/home/me/.wrec/wrec.sqlite");
    assert_eq!(log_path(&dir), "/home/me/.wrec/wrec.log");
    assert_eq!(wrec_dir(Some(s("/data")), dir.clone()), "/data");
    assert_eq!(wrec_dir(None, dir.clone()), "/home/me/.wrec");
}

#[test]
fn default_data_folder_follows_the_platform() {
    assert_eq!(default_wrec_dir(&Some(s("/home/me")), false), "/home/me/.wrec");
    assert_eq!(default_wrec_dir(&Some(s("/Users/me")), true), "/Users/me/Library/Application Support/Wrec");
    assert_eq!(default_wrec_dir(&None, true), "./Wrec");
    assert_eq!(default_wrec_dir(&None, false), "./.wrec");
}

#[test]
fn legacy_configuration_paths_in_order() {
    assert_eq!(
        legacy_config_paths(&Some(s("/home/me")), &None),
        vec![s("/home/me/.wrec/config.json"), s("/home/me/.config/wrec/config.json"), s("/home/me/.config/wrec.json")]
    );
    assert_eq!(legacy_config_paths(&None, &None), vec![s("./wrec.json")]);
    let mac = legacy_config_paths(&Some(s("/Users/me")), &Some(s("Wrec Beta")));
    assert_eq!(mac[0], "/Users/me/Library/Application Support/Wrec Dev/config.json");
    assert_eq!(mac[1], "/Users/me/Library/Application Support/Wrec Beta/config.json");
    assert_eq!(mac.len(), 5);
    assert_eq!(legacy_config_paths(&Some(s("/Users/me")), &Some(s("Wrec"))).len(), 4);
}

#[test]
fn daemon_files_live_in_its_home() {
    assert_eq!(wrec_home(Some(s("/tmp/h")), Some(s("/home/me/.wrec"))), "/tmp/h");
    assert_eq!(wrec_home(None, Some(s("/home/me/.wrec"))), "/home/me/.wrec");
    assert_eq!(wrec_home(None, None), ".wrec");
    assert_eq!(default_wrec_home(false, &None, &None, &Some(s("/home/me"))), Some(s("/home/me/.wrec")));
    assert_eq!(default_wrec_home(false, &None, &None, &None), None);
    let home = s("/home/me/.wrec");
    assert_eq!(socket_path(&home), "/home/me/.wrec/wrec.sock");
    assert_eq!(daemon_log_path(&home), "/home/me/.wrec/daemon.log");
    assert_eq!(job_events_path(&home), "/home/me/.wrec/job-events.jsonl");
}

#[test]
fn configuration_history_and_log_share_one_folder() {
    for dir in ["/home/me/.wrec", "/home/me/.wrec/", "data", ""] {
        let config = config_path(&s(dir));
        let store = store_path(&s(dir));
        let log = log_path(&s(dir));
        let parent = std::path::Path::new(&config).parent();
        assert_eq!(std::path::Path::new(&store).parent(), parent);
        assert_eq!(std::path::Path::new(&log).parent(), parent);
    }
}
