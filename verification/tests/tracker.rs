use clavy::tracker::{
    excluded_app_id_list, popup_only_app_id_list, target_pids, AllowedApps, ProcessTracker,
    RunningApp,
};

fn app(pid: i32, bundle_id: Option<&str>) -> RunningApp {
    RunningApp { pid, bundle_id: bundle_id.map(|s| s.to_string()) }
}

#[test]
fn allowed_apps_combines_extra_popup_and_denylist() {
    let allowed = AllowedApps::new(vec![
        "com.apple.Safari".to_string(),
        "com.apple.dock".to_string(),
    ]);
    // Given explicitly.
    assert!(allowed.contains("com.apple.Safari"));
    // On the built-in popup-only allowlist.
    assert!(allowed.contains("com.apple.Spotlight"));
    assert!(allowed.contains("com.raycast.macos"));
    // The denylist wins even over an explicit entry.
    assert!(!allowed.contains("com.apple.dock"));
    assert!(!allowed.contains("com.apple.controlcenter"));
    // Never mentioned anywhere.
    assert!(!allowed.contains("com.example.editor"));
}

#[test]
fn builtin_lists_have_expected_entries() {
    let excluded = excluded_app_id_list();
    assert_eq!(excluded.len(), 4);
    assert!(excluded.iter().any(|s| s == "com.apple.notificationcenterui"));
    let popups = popup_only_app_id_list();
    assert_eq!(popups.len(), 12);
    assert!(popups.iter().any(|s| s == "at.obdev.LaunchBar"));
}

#[test]
fn target_pids_is_windowed_intersect_allowed() {
    let allowed = AllowedApps::new(vec!["com.apple.Safari".to_string()]);
    let running = vec![
        app(1, Some("com.apple.dock")),        // windowed but excluded
        app(2, Some("com.apple.Spotlight")),   // windowed, popup-only: allowed
        app(3, Some("com.apple.Safari")),      // windowed and explicitly allowed
        app(4, Some("com.apple.Safari")),      // allowed but owns no window
        app(5, None),                          // no bundle identifier
        app(3, Some("com.apple.Safari")),      // duplicate process report
    ];
    let windowed = vec![1, 2, 3, 5, 9];
    let target = target_pids(&running, &windowed, &allowed);
    assert_eq!(target, vec![2, 3]);
}

#[test]
fn reconciliation_reaches_target_exactly() {
    let mut tracker = ProcessTracker::new();
    tracker.confirm_pid(1);
    tracker.confirm_pid(2);

    let target = vec![2, 3];
    let removals = tracker.removals(&target);
    assert_eq!(removals, vec![1]);
    let additions = tracker.additions(&target);
    assert_eq!(additions, vec![3]);

    for pid in removals {
        tracker.drop_pid(pid);
    }
    for pid in additions {
        tracker.confirm_pid(pid);
    }
    assert!(!tracker.observes(1));
    assert!(tracker.observes(2));
    assert!(tracker.observes(3));

    // A second pass against the same target is a no-op.
    assert!(tracker.removals(&target).is_empty());
    assert!(tracker.additions(&target).is_empty());
}

#[test]
fn process_churn_keeps_observed_consistent() {
    let mut tracker = ProcessTracker::new();
    let targets: Vec<Vec<i32>> = vec![
        vec![1, 2, 3],
        vec![2, 4],
        vec![],
        vec![4, 5, 6],
        vec![4, 5, 6],
    ];
    for target in &targets {
        for pid in tracker.removals(target) {
            tracker.drop_pid(pid);
        }
        for pid in tracker.additions(target) {
            tracker.confirm_pid(pid);
        }
    }
    // The observed set must equal the last target exactly.
    for pid in 0..10 {
        assert_eq!(tracker.observes(pid), [4, 5, 6].contains(&pid));
    }
}

#[test]
fn confirm_pid_is_idempotent() {
    let mut tracker = ProcessTracker::new();
    tracker.confirm_pid(7);
    tracker.confirm_pid(7);
    assert!(tracker.observes(7));
    tracker.drop_pid(7);
    assert!(!tracker.observes(7));
}

#[test]
fn drop_pid_of_unobserved_is_safe() {
    let mut tracker = ProcessTracker::new();
    tracker.confirm_pid(1);
    tracker.drop_pid(99);
    assert!(tracker.observes(1));
    assert!(!tracker.observes(99));
}
