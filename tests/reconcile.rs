use window_sync::monitor::{Monitor, MonitorTopology, VideoMode};
use window_sync::reconcile::{
    finish_changes, plan_changes, plan_creation, plan_resize, take_granted_size, FullscreenTarget, NativeCommand,
    NativeFacts, ReconcileWarning, WindowResized,
};
use window_sync::record::{
    CachedWindow, IVec2, MonitorSelection, WindowMode, WindowPosition, WindowRecord,
};

fn no_monitor_facts() -> NativeFacts {
    NativeFacts {
        fullscreen: None,
        decorated: true,
        resizable: true,
        outer_position: None,
        topology: MonitorTopology { monitors: vec![], primary: None, current: None },
    }
}

fn one_monitor_facts() -> NativeFacts {
    let modes = vec![
        VideoMode { width: 1280, height: 720, bit_depth: 32, refresh_rate_millihertz: 60000 },
        VideoMode { width: 1920, height: 1080, bit_depth: 32, refresh_rate_millihertz: 60000 },
        VideoMode { width: 1920, height: 1080, bit_depth: 32, refresh_rate_millihertz: 144000 },
        VideoMode { width: 800, height: 600, bit_depth: 32, refresh_rate_millihertz: 75000 },
    ];
    NativeFacts {
        fullscreen: None,
        decorated: true,
        resizable: true,
        outer_position: Some(IVec2 { x: 0, y: 0 }),
        topology: MonitorTopology {
            monitors: vec![Monitor {
                position: IVec2 { x: 100, y: 50 },
                width: 1920,
                height: 1080,
                video_modes: modes,
            }],
            primary: Some(0),
            current: Some(0),
        },
    }
}

fn fresh() -> (WindowRecord, CachedWindow) {
    let r = WindowRecord::new("App".to_string());
    let c = CachedWindow { window: r.clone() };
    (r, c)
}


#[test]
fn unchanged_record_makes_no_call() {
    let (mut r, c) = fresh();
    let p = plan_changes(&mut r, &c, &no_monitor_facts());
    assert!(p.commands.is_empty());
    assert!(p.warnings.is_empty());
}

#[test]
fn second_pass_makes_no_call() {
    let (mut r, mut c) = fresh();
    r.title = "Renamed".to_string();
    r.visible = false;
    r.maximize_request = Some(true);
    let facts = no_monitor_facts();
    let p = plan_changes(&mut r, &c, &facts);
    assert_eq!(
        p.commands,
        vec![
            NativeCommand::SetTitle("Renamed".to_string()),
            NativeCommand::SetVisible(false),
            NativeCommand::SetMaximized(true),
        ]
    );
    let o = finish_changes(&mut r, &mut c, false);
    assert_eq!(o, None);
    assert_eq!(c.window, r);
    let again = plan_changes(&mut r, &c, &facts);
    assert!(again.commands.is_empty());
    assert!(again.warnings.is_empty());
}

#[test]
fn granted_size_is_written_back_and_announced() {
    let (mut r, mut c) = fresh();
    r.resolution.physical_width = 800;
    r.resolution.physical_height = 600;
    assert_eq!(plan_resize(&r, &c), vec![NativeCommand::RequestInnerSize(800, 600)]);
    let resized = take_granted_size(3, &mut r, Some((780, 600)));
    assert_eq!(resized, Some(WindowResized { window: 3, width: 780, height: 600 }));
    assert_eq!(r.resolution.physical_width, 780);
    assert_eq!(r.resolution.physical_height, 600);
    let p = plan_changes(&mut r, &c, &no_monitor_facts());
    assert!(p.commands.is_empty());
    finish_changes(&mut r, &mut c, false);
    assert_eq!(c.window.resolution.physical_width, 780);
    assert!(plan_resize(&r, &c).is_empty());
}

#[test]
fn size_applied_in_full_is_not_announced() {
    let (mut r, mut c) = fresh();
    r.resolution.physical_width = 640;
    assert_eq!(take_granted_size(3, &mut r, None), None);
    assert_eq!(r.resolution.physical_width, 640);
    finish_changes(&mut r, &mut c, false);
    assert!(plan_resize(&r, &c).is_empty());
}

#[test]
fn centring_uses_granted_size() {
    let (mut r, c) = fresh();
    r.resolution.physical_width = 1000;
    r.resolution.physical_height = 500;
    r.position = WindowPosition::Centered(MonitorSelection::Current);
    take_granted_size(1, &mut r, Some((920, 480)));
    let p = plan_changes(&mut r, &c, &one_monitor_facts());
    assert_eq!(p.commands, vec![NativeCommand::SetOuterPosition(IVec2 { x: 600, y: 350 })]);
}

#[test]
fn transparency_change_is_undone() {
    let (mut r, mut c) = fresh();
    r.transparent = true;
    let p = plan_changes(&mut r, &c, &no_monitor_facts());
    assert!(p.commands.is_empty());
    assert_eq!(p.warnings, vec![ReconcileWarning::TransparencyUnchangeable]);
    assert!(!r.transparent);
    finish_changes(&mut r, &mut c, false);
    assert!(!c.window.transparent);
}

#[test]
fn canvas_change_is_undone() {
    let (mut r, c) = fresh();
    r.canvas = Some("#game".to_string());
    let p = plan_changes(&mut r, &c, &no_monitor_facts());
    assert!(p.commands.is_empty());
    assert_eq!(p.warnings, vec![ReconcileWarning::CanvasUnchangeable]);
    assert_eq!(r.canvas, None);
}

#[test]
fn losing_focus_makes_no_call() {
    let (mut r, mut c) = fresh();
    r.focused = false;
    let p = plan_changes(&mut r, &c, &no_monitor_facts());
    assert!(p.commands.is_empty());
    assert!(!r.focused);
    finish_changes(&mut r, &mut c, false);
    assert!(!r.focused);
    r.focused = true;
    let again = plan_changes(&mut r, &c, &no_monitor_facts());
    assert_eq!(again.commands, vec![NativeCommand::Focus]);
}

#[test]
fn maximize_request_is_taken_once() {
    let (mut r, mut c) = fresh();
    r.maximize_request = Some(true);
    r.minimize_request = Some(false);
    let p = plan_changes(&mut r, &c, &no_monitor_facts());
    assert_eq!(
        p.commands,
        vec![NativeCommand::SetMaximized(true), NativeCommand::SetMinimized(false)]
    );
    assert_eq!(r.maximize_request, None);
    assert_eq!(r.minimize_request, None);
    finish_changes(&mut r, &mut c, false);
    let again = plan_changes(&mut r, &c, &no_monitor_facts());
    assert!(again.commands.is_empty());
}

#[test]
fn fullscreen_without_monitor_is_deferred() {
    let (mut r, c) = fresh();
    r.mode = WindowMode::Fullscreen;
    let p = plan_changes(&mut r, &c, &no_monitor_facts());
    assert!(p.commands.is_empty());
    assert_eq!(p.warnings, vec![ReconcileWarning::NoCurrentMonitor]);
    assert_eq!(r.mode, WindowMode::Fullscreen);
}

#[test]
fn fullscreen_takes_best_mode() {
    let (mut r, c) = fresh();
    r.mode = WindowMode::Fullscreen;
    let p = plan_changes(&mut r, &c, &one_monitor_facts());
    let best = VideoMode { width: 1920, height: 1080, bit_depth: 32, refresh_rate_millihertz: 144000 };
    assert_eq!(
        p.commands,
        vec![NativeCommand::SetFullscreen(Some(FullscreenTarget::Exclusive(best)))]
    );
}

#[test]
fn sized_fullscreen_takes_fitting_mode() {
    let (mut r, c) = fresh();
    r.mode = WindowMode::SizedFullscreen;
    r.resolution.physical_width = 1600;
    r.resolution.physical_height = 1200;
    r.resolution.scale_factor_milli = 2000;
    let p = plan_changes(&mut r, &c, &one_monitor_facts());
    let fit = VideoMode { width: 800, height: 600, bit_depth: 32, refresh_rate_millihertz: 75000 };
    assert_eq!(
        p.commands,
        vec![NativeCommand::SetFullscreen(Some(FullscreenTarget::Exclusive(fit)))]
    );
    assert_eq!(plan_resize(&r, &c), vec![NativeCommand::RequestInnerSize(1600, 1200)]);
}

#[test]
fn borderless_already_in_place_makes_no_call() {
    let (mut r, c) = fresh();
    r.mode = WindowMode::BorderlessFullscreen;
    let mut facts = no_monitor_facts();
    facts.fullscreen = Some(FullscreenTarget::Borderless);
    let p = plan_changes(&mut r, &c, &facts);
    assert!(p.commands.is_empty());
    assert!(p.warnings.is_empty());
}

#[test]
fn cleared_cursor_position_makes_no_call() {
    let (mut r, mut c) = fresh();
    c.window.cursor_position = Some(IVec2 { x: 5, y: 5 });
    let p = plan_changes(&mut r, &c, &no_monitor_facts());
    assert!(p.commands.is_empty());
    r.cursor_position = Some(IVec2 { x: 9, y: 4 });
    let again = plan_changes(&mut r, &c, &no_monitor_facts());
    assert_eq!(again.commands, vec![NativeCommand::SetCursorPosition(IVec2 { x: 9, y: 4 })]);
}

#[test]
fn refused_hit_test_is_undone() {
    let (mut r, mut c) = fresh();
    r.cursor.hit_test = false;
    let p = plan_changes(&mut r, &c, &no_monitor_facts());
    assert_eq!(p.commands, vec![NativeCommand::SetCursorHitTest(false)]);
    let o = finish_changes(&mut r, &mut c, true);
    assert!(r.cursor.hit_test);
    assert_eq!(o, Some(ReconcileWarning::CursorHitTestRefused));
    assert!(c.window.cursor.hit_test);
}

#[test]
fn decorations_matching_native_make_no_call() {
    let (mut r, c) = fresh();
    r.decorations = false;
    let mut facts = no_monitor_facts();
    facts.decorated = false;
    let p = plan_changes(&mut r, &c, &facts);
    assert!(p.commands.is_empty());
    facts.decorated = true;
    let again = plan_changes(&mut r, &c, &facts);
    assert_eq!(again.commands, vec![NativeCommand::SetDecorations(false)]);
}

#[test]
fn constraints_are_made_consistent() {
    let (mut r, c) = fresh();
    r.resize_constraints.min_width = 0;
    r.resize_constraints.min_height = 300;
    r.resize_constraints.max_width = Some(500);
    r.resize_constraints.max_height = Some(200);
    let p = plan_changes(&mut r, &c, &no_monitor_facts());
    assert_eq!(
        p.commands,
        vec![NativeCommand::SetMinInnerSize(1, 300), NativeCommand::SetMaxInnerSize(500, 300)]
    );
}

#[test]
fn unbounded_maximum_is_not_sent() {
    let (mut r, c) = fresh();
    r.resize_constraints.min_width = 200;
    r.resize_constraints.max_height = Some(900);
    let p = plan_changes(&mut r, &c, &no_monitor_facts());
    assert_eq!(p.commands, vec![NativeCommand::SetMinInnerSize(200, 120)]);
}

#[test]
fn centred_position_uses_monitor() {
    let (mut r, c) = fresh();
    r.position = WindowPosition::Centered(MonitorSelection::Primary);
    let p = plan_changes(&mut r, &c, &one_monitor_facts());
    assert_eq!(p.commands, vec![NativeCommand::SetOuterPosition(IVec2 { x: 420, y: 230 })]);
}

#[test]
fn position_already_in_place_makes_no_call() {
    let (mut r, c) = fresh();
    r.position = WindowPosition::At(IVec2 { x: 0, y: 0 });
    let p = plan_changes(&mut r, &c, &one_monitor_facts());
    assert!(p.commands.is_empty());
    r.position = WindowPosition::At(IVec2 { x: 10, y: 0 });
    let again = plan_changes(&mut r, &c, &one_monitor_facts());
    assert_eq!(again.commands, vec![NativeCommand::SetOuterPosition(IVec2 { x: 10, y: 0 })]);
}

#[test]
fn ime_area_has_fixed_side() {
    let (mut r, c) = fresh();
    r.ime_position = IVec2 { x: 3, y: 4 };
    r.ime_enabled = true;
    let p = plan_changes(&mut r, &c, &no_monitor_facts());
    assert_eq!(
        p.commands,
        vec![
            NativeCommand::SetImeAllowed(true),
            NativeCommand::SetImeCursorArea(IVec2 { x: 3, y: 4 }, 10),
        ]
    );
}

#[test]
fn fullscreen_without_video_modes_is_deferred() {
    let (mut r, c) = fresh();
    r.mode = WindowMode::Fullscreen;
    let mut facts = one_monitor_facts();
    facts.topology.monitors[0].video_modes = vec![];
    let p = plan_changes(&mut r, &c, &facts);
    assert!(p.commands.is_empty());
    assert_eq!(p.warnings, vec![ReconcileWarning::NoVideoMode]);
}

#[test]
fn leaving_fullscreen_goes_windowed() {
    let (mut r, mut c) = fresh();
    c.window.mode = WindowMode::BorderlessFullscreen;
    let mut facts = no_monitor_facts();
    facts.fullscreen = Some(FullscreenTarget::Borderless);
    let p = plan_changes(&mut r, &c, &facts);
    assert_eq!(p.commands, vec![NativeCommand::SetFullscreen(None)]);
}

#[test]
fn requests_come_after_persistent_fields() {
    let (mut r, c) = fresh();
    r.minimize_request = Some(true);
    r.window_level = window_sync::record::WindowLevel::AlwaysOnTop;
    r.visible = false;
    let p = plan_changes(&mut r, &c, &no_monitor_facts());
    assert_eq!(
        p.commands,
        vec![
            NativeCommand::SetWindowLevel(window_sync::record::WindowLevel::AlwaysOnTop),
            NativeCommand::SetVisible(false),
            NativeCommand::SetMinimized(true),
        ]
    );
}

#[test]
fn creation_applies_what_the_builder_skips() {
    let mut r = WindowRecord::new("Main".to_string());
    r.mode = WindowMode::BorderlessFullscreen;
    r.position = WindowPosition::At(IVec2 { x: 40, y: 30 });
    r.maximize_request = Some(true);
    let cmds = plan_creation(&r, &no_monitor_facts());
    assert_eq!(
        cmds,
        vec![
            NativeCommand::SetFullscreen(Some(FullscreenTarget::Borderless)),
            NativeCommand::SetOuterPosition(IVec2 { x: 40, y: 30 }),
        ]
    );
    assert_eq!(r.maximize_request, Some(true));
    assert!(plan_creation(&WindowRecord::new("Main".to_string()), &no_monitor_facts()).is_empty());
}
