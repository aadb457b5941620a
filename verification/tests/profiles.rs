use overclock::profiles::{all_profiles, casual_gaming, competitive_fps, productivity, s, streaming, sv, video_editing};

#[test]
fn five_profiles_in_display_order() {
    let ps = all_profiles();
    let ids: Vec<&str> = ps.iter().map(|p| p.id.as_str()).collect();
    assert_eq!(ids, vec!["competitive_fps", "casual_gaming", "video_editing", "streaming", "productivity"]);
    let names: Vec<&str> = ps.iter().map(|p| p.name.as_str()).collect();
    assert_eq!(names, vec!["Competitive FPS", "Casual Gaming", "Video Editing", "Streaming", "Productivity"]);
}

#[test]
fn competitive_fps_turns_everything_on() {
    let p = competitive_fps();
    assert!(p.power_ultimate && p.usb_suspend_disable && p.nagle_disable && p.interrupt_mod_disable);
    assert!(p.wake_on_lan_disable && p.mouse_accel_disable && p.process_priority_high && p.background_apps_disable);
    assert_eq!(p.disable_services, vec!["SysMain", "DiagTrack", "XblAuthManager", "WSearch"]);
    assert_eq!(p.description, "Minimum latency, maximum debloat. For CS2, Valorant, Apex Legends.");
}

#[test]
fn other_profiles_settings() {
    let c = casual_gaming();
    assert!(!c.power_ultimate && c.usb_suspend_disable && c.nagle_disable && !c.interrupt_mod_disable);
    assert!(c.wake_on_lan_disable && c.mouse_accel_disable && !c.process_priority_high && c.background_apps_disable);
    assert_eq!(c.disable_services, vec!["DiagTrack", "XblAuthManager"]);

    let v = video_editing();
    assert!(v.power_ultimate && v.usb_suspend_disable && !v.nagle_disable && !v.mouse_accel_disable);
    assert_eq!(v.disable_services, vec!["DiagTrack"]);

    let st = streaming();
    assert!(!st.power_ultimate && st.nagle_disable && st.process_priority_high && !st.background_apps_disable);
    assert_eq!(st.disable_services, vec!["DiagTrack", "XblAuthManager"]);

    let pr = productivity();
    assert!(!pr.power_ultimate && !pr.usb_suspend_disable && !pr.nagle_disable && !pr.interrupt_mod_disable);
    assert!(!pr.wake_on_lan_disable && !pr.mouse_accel_disable && !pr.process_priority_high && !pr.background_apps_disable);
    assert_eq!(pr.disable_services, vec!["DiagTrack"]);
    assert_eq!(pr.description, "Balanced mode. Keeps search, indexing, and background services.");
}

#[test]
fn profile_ids_are_distinct() {
    let ps = all_profiles();
    for i in 0..ps.len() {
        for j in (i + 1)..ps.len() {
            assert_ne!(ps[i].id, ps[j].id);
        }
    }
}

#[test]
fn string_helpers_copy_text() {
    assert_eq!(s("abc"), "abc");
    assert_eq!(sv(&["a", "b"]), vec!["a".to_string(), "b".to_string()]);
    assert!(sv(&[]).is_empty());
}
