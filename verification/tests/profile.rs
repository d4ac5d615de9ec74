use auto_sade::profile::{
    download_flag, launch_flags, list_profile_stem, preferences, preferences_dir, preferences_file, profile_name,
    range_profile_stem, Cleanup, CleanupMove, REMOVAL_ATTEMPTS, REMOVAL_BACKOFF_MS, RELEASE_MS,
};
use auto_sade::remote::{Command, Reply, Step};

#[test]
fn profile_names_carry_the_nanoseconds() {
    assert_eq!(
        profile_name(range_profile_stem(), 1_700_000_000_123_456_789),
        "auto_sade_profile_1700000000123456789"
    );
    assert_eq!(profile_name(list_profile_stem(), 0), "busqueda_ccoo_profile_0");
    assert_eq!(
        profile_name("p", u128::MAX),
        "p340282366920938463463374607431768211455"
    );
}

#[test]
fn profile_names_differ_for_different_instants() {
    assert_ne!(profile_name("x_", 41), profile_name("x_", 42));
}

#[test]
fn preferences_switch_off_prompts() {
    let p = preferences();
    assert!(p.contains("\"translate\":{\"enabled\":false}"));
    assert!(p.contains("\"password_manager_enabled\":false"));
    assert!(p.contains("\"automatic_downloads\":1"));
    assert!(p.contains("\"credentials_enable_service\":false"));
    assert_eq!(preferences_dir(), "Default");
    assert_eq!(preferences_file(), "Preferences");
}

#[test]
fn removal_succeeds_at_first_attempt() {
    let (mut cleanup, first) = Cleanup::start();
    assert_eq!(
        first,
        Step { pause_ms: RELEASE_MS, report: None, command: Command::RemoveProfile }
    );
    assert_eq!(cleanup.advance(Reply::Done), CleanupMove::Finished { removed: true });
    assert_eq!(cleanup.advance(Reply::Failed), CleanupMove::Finished { removed: false });
}

#[test]
fn removal_is_tried_five_times_with_backoff() {
    let (mut cleanup, _) = Cleanup::start();
    let mut attempts = 1;
    loop {
        match cleanup.advance(Reply::Failed) {
            CleanupMove::Continue { step } => {
                assert_eq!(step.pause_ms, REMOVAL_BACKOFF_MS);
                assert_eq!(step.command, Command::RemoveProfile);
                attempts += 1;
            }
            CleanupMove::Finished { removed } => {
                assert!(!removed);
                break;
            }
        }
    }
    assert_eq!(attempts, 5);
    assert_eq!(attempts, REMOVAL_ATTEMPTS);
}

#[test]
fn removal_succeeds_at_third_attempt() {
    let (mut cleanup, _) = Cleanup::start();
    assert!(matches!(cleanup.advance(Reply::Failed), CleanupMove::Continue { .. }));
    assert!(matches!(cleanup.advance(Reply::Failed), CleanupMove::Continue { .. }));
    assert_eq!(cleanup.advance(Reply::Done), CleanupMove::Finished { removed: true });
}

#[test]
fn browser_switches() {
    let flags = launch_flags();
    assert_eq!(flags.len(), 16);
    assert_eq!(flags[0], "--no-first-run");
    assert_eq!(flags[7], "--lang=es-419");
    assert_eq!(flags[15], "--disable-popup-blocking");
    assert!(flags.iter().all(|f| f.starts_with("--")));
    assert_eq!(download_flag("/home/u/Descargas"), "--download.default_directory=/home/u/Descargas");
}
