use git_pilot::settings::{
    resolve_settings, AppSettings, PartialAiSettings, PartialAutoRefresh, PartialCommitSettings,
    PartialSettings, PartialUiSettings,
};

#[test]
fn default_settings_have_expected_values() {
    let settings = AppSettings::default();
    assert!(!settings.auto_refresh.fetch_enabled);
    assert_eq!(settings.auto_refresh.fetch_interval_secs, 300);
    assert!(!settings.auto_refresh.status_enabled);
    assert_eq!(settings.auto_refresh.status_interval_secs, 60);
    assert_eq!(settings.commit.subject_max_length, 72);
    assert_eq!(settings.ui.default_view, "changes");
    assert!(!settings.pull_requests.draft_by_default);
}

#[test]
fn apply_overrides_merges_partial_fields() {
    let mut settings = AppSettings::default();
    let partial = PartialSettings {
        auto_refresh: Some(PartialAutoRefresh {
            fetch_enabled: Some(true),
            fetch_interval_secs: Some(120),
            ..Default::default()
        }),
        commit: Some(PartialCommitSettings {
            subject_max_length: Some(50),
        }),
        ..Default::default()
    };

    settings.apply_overrides(&partial);

    assert!(settings.auto_refresh.fetch_enabled);
    assert_eq!(settings.auto_refresh.fetch_interval_secs, 120);
    // Unset fields remain default
    assert!(!settings.auto_refresh.status_enabled);
    assert_eq!(settings.auto_refresh.status_interval_secs, 60);
    assert_eq!(settings.commit.subject_max_length, 50);
}

#[test]
fn apply_overrides_chains_correctly() {
    let mut settings = AppSettings::default();

    // Team config sets fetch enabled
    let team = PartialSettings {
        auto_refresh: Some(PartialAutoRefresh {
            fetch_enabled: Some(true),
            fetch_interval_secs: Some(600),
            ..Default::default()
        }),
        ..Default::default()
    };
    settings.apply_overrides(&team);

    // Personal config overrides interval only
    let personal = PartialSettings {
        auto_refresh: Some(PartialAutoRefresh {
            fetch_interval_secs: Some(60),
            ..Default::default()
        }),
        ..Default::default()
    };
    settings.apply_overrides(&personal);

    assert!(settings.auto_refresh.fetch_enabled); // from team
    assert_eq!(settings.auto_refresh.fetch_interval_secs, 60); // from personal
}

#[test]
fn empty_overrides_change_nothing() {
    let mut settings = AppSettings::default();
    settings.apply_overrides(&PartialSettings::default());
    assert_eq!(settings.auto_refresh.fetch_interval_secs, 300);
    assert_eq!(settings.auto_refresh.prs_interval_secs, 300);
    assert_eq!(settings.auto_refresh.branches_interval_secs, 300);
    assert_eq!(settings.commit.subject_max_length, 72);
    assert_eq!(settings.ui.default_view, "changes");
    assert_eq!(settings.ai.commit_message_instructions, None);
}

#[test]
fn applying_the_same_overrides_twice_is_applying_them_once() {
    let partial = PartialSettings {
        ai: Some(PartialAiSettings {
            commit_message_instructions: Some("Use imperative mood".to_string()),
            ..Default::default()
        }),
        ui: Some(PartialUiSettings { default_view: Some("pr".to_string()) }),
        ..Default::default()
    };
    let mut once = AppSettings::default();
    once.apply_overrides(&partial);
    let mut twice = AppSettings::default();
    twice.apply_overrides(&partial);
    twice.apply_overrides(&partial);
    assert_eq!(once.ui.default_view, twice.ui.default_view);
    assert_eq!(
        once.ai.commit_message_instructions,
        twice.ai.commit_message_instructions
    );
    assert_eq!(twice.ui.default_view, "pr");
}

#[test]
fn personal_settings_win_over_team_settings() {
    let team = PartialSettings {
        commit: Some(PartialCommitSettings { subject_max_length: Some(60) }),
        ui: Some(PartialUiSettings { default_view: Some("pr".to_string()) }),
        ..Default::default()
    };
    let personal = PartialSettings {
        commit: Some(PartialCommitSettings { subject_max_length: Some(80) }),
        ..Default::default()
    };
    let resolved = resolve_settings(AppSettings::default(), Some(team), Some(personal));
    assert_eq!(resolved.commit.subject_max_length, 80);
    assert_eq!(resolved.ui.default_view, "pr");
    let none = resolve_settings(AppSettings::default(), None, None);
    assert_eq!(none.commit.subject_max_length, 72);
}
