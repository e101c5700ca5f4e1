use bvs_core::bvs::{BvsConfig, Server};
use bvs_core::modules::{Modules, UpdaterCommand};
use bvs_core::updater::{
    desktop_download_url, latest_tag, platform_download_url, tags_url, Updater,
};

fn names(v: &[&str]) -> Vec<String> {
    v.iter().map(|s| s.to_string()).collect()
}

#[test]
fn latest_tag_picks_the_greatest_version() {
    assert_eq!(latest_tag(names(&["1.2.0", "1.10.0", "1.9.9"])), "1.10.0");
    assert_eq!(latest_tag(names(&["1.0.0-rc.1", "1.0.0", "0.9.0"])), "1.0.0");
}

#[test]
fn latest_tag_counts_other_names_as_zero() {
    assert_eq!(latest_tag(names(&["v2.0.0", "0.1.0"])), "0.1.0");
    assert_eq!(latest_tag(names(&["nightly", "beta"])), "nightly");
}

#[test]
fn latest_tag_without_tags_is_zero() {
    assert_eq!(latest_tag(Vec::new()), "0.0.0");
}

#[test]
fn latest_tag_keeps_the_first_of_equal_versions() {
    assert_eq!(latest_tag(names(&["0.0.0", "release"])), "0.0.0");
    assert_eq!(latest_tag(names(&["release", "0.0.0"])), "release");
}

#[test]
fn updater_starts_with_unknown_versions() {
    let u = Updater::new();
    assert_eq!(u.get_current_version(), "0.0.0");
    assert_eq!(u.get_last_version(), "0.0.0");
    assert_eq!(u.get_repository_url(), "https://api.github.com/repos/fcornaire/balatro-vs");
    assert_eq!(u.get_base_download_url(), "https://github.com/fcornaire/balatro-vs");
    assert!(!u.is_updating());
    assert!(!u.should_update());
    assert!(!Updater::is_thunderstore_build());
}

#[test]
fn updater_setters_change_one_thing() {
    let mut u = Updater::new();
    u.set_current_version("1.0.0".to_string());
    u.set_last_version("1.1.0".to_string());
    u.set_is_updating(true);
    u.set_should_update(true);
    assert_eq!(u.get_current_version(), "1.0.0");
    assert_eq!(u.get_last_version(), "1.1.0");
    assert!(u.is_updating());
    assert!(u.should_update());
    let config = BvsConfig::new("2.0.0".to_string(), server());
    u.update_current_version(&config);
    assert_eq!(u.get_current_version(), "2.0.0");
}

#[test]
fn release_addresses() {
    let repo = "https://api.github.com/repos/fcornaire/balatro-vs";
    assert_eq!(tags_url(repo), "https://api.github.com/repos/fcornaire/balatro-vs/tags");
    let base = "https://github.com/fcornaire/balatro-vs";
    assert_eq!(
        desktop_download_url(base, "1.2.3"),
        "https://github.com/fcornaire/balatro-vs/releases/download/1.2.3/balatro-vs.zip"
    );
    assert_eq!(
        platform_download_url(base, "1.2.3", "switch"),
        "https://github.com/fcornaire/balatro-vs/releases/download/1.2.3/balatro-vs-1.2.3-switch.zip"
    );
}

fn server() -> Server {
    Server::new("wss".to_string(), "matchbox.example".to_string(), 3536, "/".to_string())
}

fn modules(version: &str) -> Modules {
    Modules::init(BvsConfig::new(version.to_string(), server()), 0, false)
}

#[test]
fn check_for_update_needs_both_versions() {
    let mut m = modules("1.0.0");
    assert_eq!(m.updater_check_for_update(false), Ok(false));
    assert!(m.take_updater_commands().is_empty());
}

#[test]
fn check_for_update_downloads_a_newer_release_once() {
    let mut m = modules("1.0.0");
    m.updater_set_last_version("1.1.0".to_string());
    assert_eq!(m.updater_check_for_update(false), Ok(false));
    let commands = m.take_updater_commands();
    assert_eq!(commands.len(), 2);
    match &commands[0] {
        UpdaterCommand::Notify(msg) => assert_eq!(
            msg,
            "[BVS] New version available: 1.1.0 (current: 1.0.0), starting download"
        ),
        other => panic!("unexpected {other:?}"),
    }
    match &commands[1] {
        UpdaterCommand::Download(url, version) => {
            assert_eq!(url, "https://github.com/fcornaire/balatro-vs");
            assert_eq!(version, "1.1.0");
        }
        other => panic!("unexpected {other:?}"),
    }
    assert_eq!(m.updater_check_for_update(false), Ok(false));
    assert!(m.take_updater_commands().is_empty());
    assert_eq!(m.updater_should_update(), Ok(false));
    m.updater_download_finished();
    assert_eq!(m.updater_should_update(), Ok(true));
}

#[test]
fn check_for_update_is_up_to_date_otherwise() {
    let mut m = modules("1.0.0");
    m.updater_set_last_version("1.0.0".to_string());
    assert_eq!(m.updater_check_for_update(false), Ok(true));
    m.updater_set_last_version("0.9.0".to_string());
    assert_eq!(m.updater_check_for_update(false), Ok(true));
    m.updater_set_last_version("garbage".to_string());
    assert_eq!(m.updater_check_for_update(false), Ok(true));
    assert!(m.take_updater_commands().is_empty());
}

#[test]
fn check_for_update_with_auto_update_off() {
    let mut m = modules("1.0.0");
    m.updater_set_last_version("9.0.0".to_string());
    assert_eq!(m.updater_check_for_update(true), Ok(true));
    assert!(m.take_updater_commands().is_empty());
}

#[test]
fn last_version_lookup_unless_disabled() {
    let mut m = modules("1.0.0");
    assert_eq!(m.updater_get_and_update_last_version(true), Ok(()));
    assert!(m.take_updater_commands().is_empty());
    assert_eq!(m.updater_get_and_update_last_version(false), Ok(()));
    let commands = m.take_updater_commands();
    assert!(matches!(
        &commands[..],
        [UpdaterCommand::FetchLastVersion(u)] if u == "https://api.github.com/repos/fcornaire/balatro-vs"
    ));
    assert_eq!(m.updater_get_last_version(), Ok("0.0.0".to_string()));
    assert_eq!(m.updater_is_thunderstore_build(), Ok(false));
    assert_eq!(m.updater_update(), Ok(()));
    assert!(matches!(&m.take_updater_commands()[..], [UpdaterCommand::Install]));
}

#[test]
fn modules_run_the_configured_version() {
    let mut m = modules("3.1.4");
    m.updater_set_last_version("3.2.0".to_string());
    assert_eq!(m.updater_update_current_version(), Ok(()));
    assert_eq!(m.updater_check_for_update(false), Ok(false));
}

#[test]
fn android_libraries_are_unpacked_beside_the_running_one() {
    assert_eq!(bvs_core::updater::android_dest_name("lib/libwinmm.so"), "lib/libwinmm.so.new");
    assert_eq!(bvs_core::updater::android_dest_name("balatro-vs/main.lua"), "balatro-vs/main.lua");
    assert_eq!(bvs_core::updater::android_dest_name("so"), "so");
    assert_eq!(bvs_core::updater::android_dest_name(".so"), ".so.new");
}

#[test]
fn thunderstore_build_announces_a_newer_release_without_downloading() {
    let mut m = Modules::init(BvsConfig::new("1.0.0".to_string(), server()), 0, true);
    assert_eq!(m.updater_is_thunderstore_build(), Ok(true));
    m.updater_set_last_version("1.1.0".to_string());
    assert_eq!(m.updater_check_for_update(false), Ok(false));
    let commands = m.take_updater_commands();
    assert_eq!(commands.len(), 1);
    match &commands[0] {
        UpdaterCommand::Notify(msg) => assert_eq!(
            msg,
            "[BVS] New version available: 1.1.0 (current: 1.0.0), please update through Thunderstore"
        ),
        other => panic!("unexpected {other:?}"),
    }
    assert_eq!(m.updater_should_update(), Ok(true));
    assert_eq!(m.updater_update(), Ok(()));
    assert!(m.take_updater_commands().is_empty());
}
