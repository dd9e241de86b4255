use hutao_installer::cli::UpdateArgs;
use hutao_installer::installer::{
    build_config, build_user_agent, font_version_sufficient, self_update_needed, vcrt_exit_ok,
    vcrt_installed,
};
use hutao_installer::version::Version;

#[test]
fn update_run_config_skips_self_update() {
    let c = build_config(
        "1.2.3".to_string(),
        false,
        None,
        true,
        Some("1.2.2".to_string()),
        Some(UpdateArgs { token: Some("tok".to_string()) }),
    );
    assert_eq!(c.version, "1.2.3");
    assert!(c.is_update);
    assert!(c.need_migration);
    assert!(c.skip_self_update);
    assert!(!c.is_offline_mode);
    assert_eq!(c.curr_version.as_deref(), Some("1.2.2"));
    assert_eq!(c.token.as_deref(), Some("tok"));
}

#[test]
fn plain_run_config_follows_installed_state() {
    let c = build_config("1.2.3".to_string(), true, Some("1.9.0".to_string()), false, None, None);
    assert!(!c.is_update);
    assert!(c.skip_self_update);
    assert!(c.is_offline_mode);
    assert_eq!(c.embedded_version.as_deref(), Some("1.9.0"));
    assert_eq!(c.token, None);

    let c = build_config(
        "1.2.3".to_string(),
        false,
        None,
        false,
        Some("1.0.0".to_string()),
        None,
    );
    assert!(c.is_update);
    assert!(!c.skip_self_update);
    assert!(!c.is_offline_mode);
}

#[test]
fn self_update_waits_for_a_newer_version() {
    let cur = Version::new(1, 2, 3, 0);
    let newer = Version::new(1, 2, 4, 0);
    assert!(self_update_needed(false, &cur, &newer));
    assert!(!self_update_needed(false, &newer, &cur));
    assert!(!self_update_needed(false, &cur, &cur));
    assert!(!self_update_needed(true, &cur, &newer));
}

#[test]
fn runtime_counts_as_installed_only_with_both_registrations() {
    assert!(vcrt_installed(Some(1), Some(1)));
    assert!(!vcrt_installed(Some(1), Some(0)));
    assert!(!vcrt_installed(Some(0), Some(1)));
    assert!(!vcrt_installed(None, Some(1)));
    assert!(!vcrt_installed(Some(1), None));
}

#[test]
fn runtime_installer_exit_codes() {
    assert!(vcrt_exit_ok(true, 0));
    assert!(vcrt_exit_ok(false, 1638));
    assert!(vcrt_exit_ok(false, 3010));
    assert!(!vcrt_exit_ok(false, 1));
}

#[test]
fn font_version_entries_are_read_past_the_prefix() {
    let min = Version::new(1, 39, 0, 0);
    assert!(font_version_sufficient("Version 1.39.0.0", &min));
    assert!(font_version_sufficient("Version 1.40", &min));
    assert!(!font_version_sufficient("Version 1.38.9.9", &min));
    assert!(!font_version_sufficient("Version", &min));
    assert!(!font_version_sufficient("Version garbage", &min));
}

#[test]
fn user_agent_carries_all_components() {
    let ua = build_user_agent(
        "online",
        "1.2.3",
        "120.0.1",
        &Version::new(10, 0, 22631, 0),
        16,
    );
    assert_eq!(
        ua,
        "HutaoInstaller-online/1.2.3 Webview2/120.0.1 Windows/10.0.22631 Threads/16"
    );
}
