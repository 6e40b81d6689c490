use window_sync::hook::{changed_hooks, NoHook, WindowHook};
use window_sync::lifecycle::{complete_creation, despawn_windows};
use window_sync::monitor::{best_video_mode, fitting_video_mode, VideoMode};
use window_sync::reconcile::{logical_length, plan_changes, NativeFacts};
use window_sync::monitor::MonitorTopology;
use window_sync::record::{WindowRecord, WindowTheme};
use window_sync::registry::WindowRegistry;

fn facts() -> NativeFacts {
    NativeFacts {
        fullscreen: None,
        decorated: true,
        resizable: true,
        outer_position: None,
        topology: MonitorTopology { monitors: vec![], primary: None, current: None },
    }
}

#[test]
fn creation_reads_back_theme_and_scale() {
    let mut reg: WindowRegistry<u32> = WindowRegistry::new();
    let mut r = WindowRecord::new("Main".to_string());
    r.title = "Final".to_string();
    let c = complete_creation(&mut reg, 1, 100, &mut r, Some(WindowTheme::Dark), 1500).unwrap();
    assert_eq!(r.window_theme, Some(WindowTheme::Dark));
    assert_eq!(r.resolution.scale_factor_milli, 1500);
    assert_eq!(r.resolution.physical_width, 1920);
    assert_eq!(r.resolution.physical_height, 1080);
    assert_eq!(c.window, r);
    assert_eq!(c.window.title, "Final");
    assert!(reg.contains(1));
    assert_eq!(reg.get_window(1), Some(&100));
    let p = plan_changes(&mut r, &c, &facts());
    assert!(p.commands.is_empty());
}

#[test]
fn creation_keeps_theme_when_native_has_none() {
    let mut reg: WindowRegistry<u32> = WindowRegistry::new();
    let mut r = WindowRecord::new("Main".to_string());
    r.window_theme = Some(WindowTheme::Light);
    complete_creation(&mut reg, 1, 100, &mut r, None, 1000).unwrap();
    assert_eq!(r.window_theme, Some(WindowTheme::Light));
}

#[test]
fn second_creation_is_refused() {
    let mut reg: WindowRegistry<u32> = WindowRegistry::new();
    let mut r = WindowRecord::new("Main".to_string());
    assert!(complete_creation(&mut reg, 1, 100, &mut r, None, 1000).is_some());
    assert!(complete_creation(&mut reg, 1, 200, &mut r, Some(WindowTheme::Dark), 2000).is_none());
    assert_eq!(r.resolution.scale_factor_milli, 1000);
    assert_eq!(reg.get_window(1), Some(&100));
}

#[test]
fn removed_window_is_closed_once() {
    let mut reg: WindowRegistry<u32> = WindowRegistry::new();
    reg.register(1, 10);
    reg.register(2, 20);
    let t = despawn_windows(&mut reg, &vec![1, 1], &vec![2]);
    assert_eq!(t.closed, vec![1]);
    assert_eq!(t.destroyed, vec![10]);
    assert!(!reg.contains(1));
    assert!(reg.contains(2));
}

#[test]
fn readded_window_is_not_closed() {
    let mut reg: WindowRegistry<u32> = WindowRegistry::new();
    reg.register(1, 10);
    let t = despawn_windows(&mut reg, &vec![1], &vec![1]);
    assert!(t.closed.is_empty());
    assert!(t.destroyed.is_empty());
    assert!(reg.contains(1));
}

#[test]
fn window_never_built_is_not_closed() {
    let mut reg: WindowRegistry<u32> = WindowRegistry::new();
    let t = despawn_windows(&mut reg, &vec![5], &vec![]);
    assert!(t.closed.is_empty());
    assert!(reg.remove_window(5).is_none());
}

#[test]
fn hook_pass_needs_live_window_and_a_change() {
    let mut reg: WindowRegistry<u32> = WindowRegistry::new();
    let mut data = NoHook;
    let mut cache = NoHook;
    assert!(changed_hooks(&reg, 1, &mut data, &mut cache).is_none());
    reg.register(1, 10);
    assert!(changed_hooks(&reg, 1, &mut data, &mut cache).is_none());
    assert!(data.same(&cache));
    let r = WindowRecord::new("x".to_string());
    assert!(data.builder_hook(&r).is_empty());
    assert!(data.window_hook(&r).is_empty());
}

#[test]
fn best_mode_prefers_size_then_refresh() {
    let modes = vec![
        VideoMode { width: 1920, height: 1080, bit_depth: 32, refresh_rate_millihertz: 60000 },
        VideoMode { width: 2560, height: 1440, bit_depth: 32, refresh_rate_millihertz: 60000 },
        VideoMode { width: 2560, height: 1440, bit_depth: 16, refresh_rate_millihertz: 60000 },
        VideoMode { width: 2560, height: 1080, bit_depth: 32, refresh_rate_millihertz: 240000 },
    ];
    assert_eq!(best_video_mode(&modes), Some(1));
    assert_eq!(best_video_mode(&vec![]), None);
}

#[test]
fn fitting_mode_prefers_closest_width() {
    let modes = vec![
        VideoMode { width: 1920, height: 1080, bit_depth: 32, refresh_rate_millihertz: 60000 },
        VideoMode { width: 1280, height: 1024, bit_depth: 32, refresh_rate_millihertz: 60000 },
        VideoMode { width: 1280, height: 720, bit_depth: 32, refresh_rate_millihertz: 60000 },
        VideoMode { width: 1280, height: 720, bit_depth: 32, refresh_rate_millihertz: 120000 },
    ];
    assert_eq!(fitting_video_mode(&modes, 1300, 700), Some(3));
    assert_eq!(fitting_video_mode(&vec![], 1300, 700), None);
}

#[test]
fn logical_length_divides_by_scale() {
    assert_eq!(logical_length(1600, 2000), 800);
    assert_eq!(logical_length(1001, 1500), 667);
    assert_eq!(logical_length(77, 0), 77);
    assert_eq!(logical_length(u32::MAX, 1), u32::MAX);
}

#[test]
fn registry_hands_back_the_kept_window() {
    let mut reg: WindowRegistry<String> = WindowRegistry::new();
    assert_eq!(reg.register(4, "four".to_string()), None);
    assert_eq!(reg.register(9, "nine".to_string()), None);
    assert_eq!(reg.register(4, "again".to_string()), Some("again".to_string()));
    assert_eq!(reg.get_window(4), Some(&"four".to_string()));
    assert_eq!(reg.remove_window(4), Some("four".to_string()));
    assert_eq!(reg.get_window(4), None);
    assert_eq!(reg.get_window(9), Some(&"nine".to_string()));
}
