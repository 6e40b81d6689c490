use vstd::prelude::*;
use crate::monitor::{
    chosen_mode, resolve_position, select_mode, select_monitor,
    target_position, MonitorTopology, VideoMode,
};
use crate::record::{
    canvas_eq, clone_canvas, same_canvas, same_opt_ivec, same_theme,
    CachedWindow, CursorGrabMode, EnabledButtons, IVec2, MonitorSelection, ResizeConstraints,
    Resolution, WindowLevel, WindowMode, WindowRecord, WindowTheme,
};

verus! {

/// Side of the square area reported to the input method around its cursor.
pub const IME_AREA_SIZE: u32 = 10;

/// The fullscreen state of a native window.
#[derive(Clone, Copy, Debug, PartialEq, Eq, Structural)]
pub enum FullscreenTarget {
    Borderless,
    Exclusive(VideoMode),
}

/// One call to make on the native window.
#[derive(Clone, Debug, PartialEq, Eq)]
pub enum NativeCommand {
    SetTitle(String),
    SetFullscreen(Option<FullscreenTarget>),
    /// Ask for this inner size in physical pixels; the native layer may grant less.
    RequestInnerSize(u32, u32),
    SetCursorPosition(IVec2),
    SetCursorIcon(u32),
    SetCursorGrab(CursorGrabMode),
    SetCursorVisible(bool),
    /// May be refused by the native layer.
    SetCursorHitTest(bool),
    SetDecorations(bool),
    SetResizable(bool),
    SetEnabledButtons(EnabledButtons),
    /// Logical pixels.
    SetMinInnerSize(u32, u32),
    /// Logical pixels.
    SetMaxInnerSize(u32, u32),
    SetOuterPosition(IVec2),
    SetMaximized(bool),
    SetMinimized(bool),
    Focus,
    SetWindowLevel(WindowLevel),
    SetImeAllowed(bool),
    /// Logical position and the side of the area in physical pixels.
    SetImeCursorArea(IVec2, u32),
    SetTheme(Option<WindowTheme>),
    SetVisible(bool),
}

/// Something worth reporting that a pass left undone or undid.
#[derive(Clone, Copy, Debug, PartialEq, Eq, Structural)]
pub enum ReconcileWarning {
    /// Exclusive fullscreen was asked for, but no current monitor is known.
    NoCurrentMonitor,
    /// Exclusive fullscreen was asked for, but the monitor lists no video mode.
    NoVideoMode,
    /// Transparency cannot change once the window exists; the change was undone.
    TransparencyUnchangeable,
    /// The canvas binding cannot change once the window exists; the change was undone.
    CanvasUnchangeable,
    /// The native layer refused the cursor hit-test setting; the change was undone.
    CursorHitTestRefused,
}

/// What the native window reports before a pass.
#[derive(Clone, Debug)]
pub struct NativeFacts {
    pub fullscreen: Option<FullscreenTarget>,
    pub decorated: bool,
    pub resizable: bool,
    /// `None` where the outer position cannot be read.
    pub outer_position: Option<IVec2>,
    pub topology: MonitorTopology,
}

/// The calls a pass makes, in order, and what it reports.
#[derive(Clone, Debug)]
pub struct ReconcilePlan {
    pub commands: Vec<NativeCommand>,
    pub warnings: Vec<ReconcileWarning>,
}

/// A notice that the native window's inner size changed, in physical pixels.
#[derive(Clone, Copy, Debug, PartialEq, Eq, Structural)]
pub struct WindowResized {
    pub window: u64,
    pub width: u32,
    pub height: u32,
}

/// Logical size from a physical one, truncated and capped at `u32::MAX`; a
/// zero scale factor counts as a factor of one.
pub open spec fn logical_len(physical: u32, scale_milli: u32) -> u32 {
    if scale_milli == 0 {
        physical
    } else if (physical as int) * 1000 / (scale_milli as int) > u32::MAX {
        u32::MAX
    } else {
        ((physical as int) * 1000 / (scale_milli as int)) as u32
    }
}

pub fn logical_length(physical: u32, scale_milli: u32) -> (r: u32)
    ensures
        r == logical_len(physical, scale_milli),
{
    if scale_milli == 0 {
        physical
    } else {
        let v: u64 = physical as u64 * 1000 / scale_milli as u64;
        if v > u32::MAX as u64 {
            u32::MAX
        } else {
            v as u32
        }
    }
}

/// The constraints made consistent: each minimum at least one, each bounded
/// maximum at least its minimum.
pub open spec fn checked_constraints(c: ResizeConstraints) -> ResizeConstraints {
    let min_w: u32 = if c.min_width < 1 { 1 } else { c.min_width };
    let min_h: u32 = if c.min_height < 1 { 1 } else { c.min_height };
    ResizeConstraints {
        min_width: min_w,
        min_height: min_h,
        max_width: match c.max_width {
            Some(m) => Some(if m < min_w { min_w } else { m }),
            None => None,
        },
        max_height: match c.max_height {
            Some(m) => Some(if m < min_h { min_h } else { m }),
            None => None,
        },
    }
}

pub fn check_constraints(c: ResizeConstraints) -> (r: ResizeConstraints)
    ensures
        r == checked_constraints(c),
{
    let min_w: u32 = if c.min_width < 1 { 1 } else { c.min_width };
    let min_h: u32 = if c.min_height < 1 { 1 } else { c.min_height };
    ResizeConstraints {
        min_width: min_w,
        min_height: min_h,
        max_width: match c.max_width {
            Some(m) => Some(if m < min_w { min_w } else { m }),
            None => None,
        },
        max_height: match c.max_height {
            Some(m) => Some(if m < min_h { min_h } else { m }),
            None => None,
        },
    }
}

/// The fullscreen state a mode asks for: `None` when it cannot be had now.
pub open spec fn fullscreen_for(r: WindowRecord, f: NativeFacts) -> Option<Option<FullscreenTarget>> {
    match r.mode {
        WindowMode::Windowed => Some(None),
        WindowMode::BorderlessFullscreen => Some(Some(FullscreenTarget::Borderless)),
        _ => match crate::monitor::selected_monitor(MonitorSelection::Current, f.topology) {
            None => None,
            Some(m) => {
                let target = if r.mode == WindowMode::Fullscreen {
                    None
                } else {
                    Some(
                        (
                            logical_len(r.resolution.physical_width, r.resolution.scale_factor_milli),
                            logical_len(r.resolution.physical_height, r.resolution.scale_factor_milli),
                        ),
                    )
                };
                match chosen_mode(m.video_modes@, target) {
                    Some(i) => Some(Some(FullscreenTarget::Exclusive(m.video_modes@[i]))),
                    None => None,
                }
            },
        },
    }
}

pub open spec fn title_cmds(r: WindowRecord, c: WindowRecord) -> Seq<NativeCommand> {
    if r.title@ != c.title@ {
        seq![NativeCommand::SetTitle(r.title)]
    } else {
        seq![]
    }
}

pub open spec fn mode_cmds(r: WindowRecord, c: WindowRecord, f: NativeFacts) -> Seq<NativeCommand> {
    if r.mode != c.mode {
        match fullscreen_for(r, f) {
            Some(t) => if t != f.fullscreen {
                seq![NativeCommand::SetFullscreen(t)]
            } else {
                seq![]
            },
            None => seq![],
        }
    } else {
        seq![]
    }
}

pub open spec fn mode_warnings(r: WindowRecord, c: WindowRecord, f: NativeFacts) -> Seq<
    ReconcileWarning,
> {
    if r.mode != c.mode && fullscreen_for(r, f) is None {
        if crate::monitor::selected_monitor(MonitorSelection::Current, f.topology) is None {
            seq![ReconcileWarning::NoCurrentMonitor]
        } else {
            seq![ReconcileWarning::NoVideoMode]
        }
    } else {
        seq![]
    }
}

pub open spec fn resolution_cmds(r: WindowRecord, c: WindowRecord) -> Seq<NativeCommand> {
    if r.resolution != c.resolution {
        seq![
            NativeCommand::RequestInnerSize(
                r.resolution.physical_width,
                r.resolution.physical_height,
            ),
        ]
    } else {
        seq![]
    }
}

pub open spec fn cursor_position_cmds(r: WindowRecord, c: WindowRecord) -> Seq<NativeCommand> {
    if r.cursor_position != c.cursor_position && r.cursor_position is Some {
        seq![NativeCommand::SetCursorPosition(r.cursor_position->Some_0)]
    } else {
        seq![]
    }
}

pub open spec fn cursor_cmds(r: WindowRecord, c: WindowRecord) -> Seq<NativeCommand> {
    cursor_position_cmds(r, c) + (if r.cursor.icon != c.cursor.icon {
        seq![NativeCommand::SetCursorIcon(r.cursor.icon)]
    } else {
        seq![]
    }) + (if r.cursor.grab_mode != c.cursor.grab_mode {
        seq![NativeCommand::SetCursorGrab(r.cursor.grab_mode)]
    } else {
        seq![]
    }) + (if r.cursor.visible != c.cursor.visible {
        seq![NativeCommand::SetCursorVisible(r.cursor.visible)]
    } else {
        seq![]
    }) + (if r.cursor.hit_test != c.cursor.hit_test {
        seq![NativeCommand::SetCursorHitTest(r.cursor.hit_test)]
    } else {
        seq![]
    })
}

pub open spec fn frame_cmds(r: WindowRecord, c: WindowRecord, f: NativeFacts) -> Seq<NativeCommand> {
    (if r.decorations != c.decorations && r.decorations != f.decorated {
        seq![NativeCommand::SetDecorations(r.decorations)]
    } else {
        seq![]
    }) + (if r.resizable != c.resizable && r.resizable != f.resizable {
        seq![NativeCommand::SetResizable(r.resizable)]
    } else {
        seq![]
    }) + (if r.enabled_buttons != c.enabled_buttons {
        seq![NativeCommand::SetEnabledButtons(r.enabled_buttons)]
    } else {
        seq![]
    })
}

pub open spec fn constraint_cmds(r: WindowRecord, c: WindowRecord) -> Seq<NativeCommand> {
    if r.resize_constraints != c.resize_constraints {
        let k = checked_constraints(r.resize_constraints);
        seq![NativeCommand::SetMinInnerSize(k.min_width, k.min_height)] + (
        if k.max_width is Some && k.max_height is Some {
            seq![NativeCommand::SetMaxInnerSize(k.max_width->Some_0, k.max_height->Some_0)]
        } else {
            seq![]
        })
    } else {
        seq![]
    }
}

pub open spec fn position_cmds(r: WindowRecord, c: WindowRecord, f: NativeFacts) -> Seq<
    NativeCommand,
> {
    if r.position != c.position {
        match target_position(r.position, r.resolution, f.topology) {
            Some(p) => if f.outer_position != Some(p) {
                seq![NativeCommand::SetOuterPosition(p)]
            } else {
                seq![]
            },
            None => seq![],
        }
    } else {
        seq![]
    }
}

pub open spec fn request_cmds(r: WindowRecord) -> Seq<NativeCommand> {
    (match r.maximize_request {
        Some(m) => seq![NativeCommand::SetMaximized(m)],
        None => seq![],
    }) + (match r.minimize_request {
        Some(m) => seq![NativeCommand::SetMinimized(m)],
        None => seq![],
    })
}

pub open spec fn focus_cmds(r: WindowRecord, c: WindowRecord) -> Seq<NativeCommand> {
    if r.focused != c.focused && r.focused {
        seq![NativeCommand::Focus]
    } else {
        seq![]
    }
}

pub open spec fn level_cmds(r: WindowRecord, c: WindowRecord) -> Seq<NativeCommand> {
    if r.window_level != c.window_level {
        seq![NativeCommand::SetWindowLevel(r.window_level)]
    } else {
        seq![]
    }
}

pub open spec fn tail_cmds(r: WindowRecord, c: WindowRecord) -> Seq<NativeCommand> {
    (if r.ime_enabled != c.ime_enabled {
        seq![NativeCommand::SetImeAllowed(r.ime_enabled)]
    } else {
        seq![]
    }) + (if r.ime_position != c.ime_position {
        seq![NativeCommand::SetImeCursorArea(r.ime_position, IME_AREA_SIZE)]
    } else {
        seq![]
    }) + (if r.window_theme != c.window_theme {
        seq![NativeCommand::SetTheme(r.window_theme)]
    } else {
        seq![]
    }) + (if r.visible != c.visible {
        seq![NativeCommand::SetVisible(r.visible)]
    } else {
        seq![]
    })
}

/// The native calls that bring the window from `c` to `r`, in order.
pub open spec fn planned_commands(r: WindowRecord, c: WindowRecord, f: NativeFacts) -> Seq<
    NativeCommand,
> {
    title_cmds(r, c) + mode_cmds(r, c, f) + cursor_cmds(r, c) + frame_cmds(
        r,
        c,
        f,
    ) + constraint_cmds(r, c) + position_cmds(r, c, f) + focus_cmds(r, c) + level_cmds(r, c)
        + tail_cmds(r, c) + request_cmds(r)
}

/// What a pass reports before the native layer answers.
pub open spec fn planned_warnings(r: WindowRecord, c: WindowRecord, f: NativeFacts) -> Seq<
    ReconcileWarning,
> {
    mode_warnings(r, c, f) + (if r.transparent != c.transparent {
        seq![ReconcileWarning::TransparencyUnchangeable]
    } else {
        seq![]
    }) + (if !canvas_eq(r.canvas, c.canvas) {
        seq![ReconcileWarning::CanvasUnchangeable]
    } else {
        seq![]
    })
}

/// The record once a plan was made: one-shot requests taken, fields that
/// cannot change after creation put back to their cached values.
pub open spec fn planned_record(r: WindowRecord, c: WindowRecord) -> WindowRecord {
    WindowRecord {
        transparent: c.transparent,
        canvas: if canvas_eq(r.canvas, c.canvas) {
            r.canvas
        } else {
            c.canvas
        },
        maximize_request: None,
        minimize_request: None,
        ..r
    }
}

/// The record once the native layer answered a size request: the size it
/// granted in place of the one asked for, where it reported one.
pub open spec fn granted_record(r: WindowRecord, granted: Option<(u32, u32)>) -> WindowRecord {
    WindowRecord {
        resolution: match granted {
            Some((w, h)) => Resolution { physical_width: w, physical_height: h, ..r.resolution },
            None => r.resolution,
        },
        ..r
    }
}

/// The record once the native layer has answered the calls of a plan.
pub open spec fn finished_record(r: WindowRecord, c: WindowRecord, hit_test_refused: bool) -> WindowRecord {
    WindowRecord {
        cursor: if hit_test_refused {
            crate::record::CursorOptions { hit_test: c.cursor.hit_test, ..r.cursor }
        } else {
            r.cursor
        },
        ..r
    }
}

fn push_title(cmds: &mut Vec<NativeCommand>, r: &WindowRecord, c: &WindowRecord)
    ensures
        final(cmds)@ == old(cmds)@ + title_cmds(*r, *c),
{
    if r.title != c.title {
        cmds.push(NativeCommand::SetTitle(r.title.clone()));
    }
}

fn same_fullscreen(a: Option<FullscreenTarget>, b: Option<FullscreenTarget>) -> (r: bool)
    ensures
        r == (a == b),
{
    match (a, b) {
        (Some(x), Some(y)) => x == y,
        (None, None) => true,
        _ => false,
    }
}

fn push_mode(
    cmds: &mut Vec<NativeCommand>,
    warnings: &mut Vec<ReconcileWarning>,
    r: &WindowRecord,
    c: &WindowRecord,
    f: &NativeFacts,
)
    ensures
        final(cmds)@ == old(cmds)@ + mode_cmds(*r, *c, *f),
        final(warnings)@ == old(warnings)@ + mode_warnings(*r, *c, *f),
{
    if r.mode == c.mode {
        return ;
    }
    let target: Option<Option<FullscreenTarget>> = match r.mode {
        WindowMode::Windowed => Some(None),
        WindowMode::BorderlessFullscreen => Some(Some(FullscreenTarget::Borderless)),
        _ => match select_monitor(MonitorSelection::Current, &f.topology) {
            None => {
                warnings.push(ReconcileWarning::NoCurrentMonitor);
                None
            },
            Some(m) => {
                let chosen = if r.mode == WindowMode::Fullscreen {
                    select_mode(&m.video_modes, None)
                } else {
                    select_mode(
                        &m.video_modes,
                        Some(
                            (
                                logical_length(
                                    r.resolution.physical_width,
                                    r.resolution.scale_factor_milli,
                                ),
                                logical_length(
                                    r.resolution.physical_height,
                                    r.resolution.scale_factor_milli,
                                ),
                            ),
                        ),
                    )
                };
                match chosen {
                    Some(i) => Some(Some(FullscreenTarget::Exclusive(m.video_modes[i]))),
                    None => {
                        warnings.push(ReconcileWarning::NoVideoMode);
                        None
                    },
                }
            },
        },
    };
    match target {
        Some(t) => {
            if !same_fullscreen(t, f.fullscreen) {
                cmds.push(NativeCommand::SetFullscreen(t));
            }
        },
        None => {},
    }
}

fn push_resolution(cmds: &mut Vec<NativeCommand>, r: &WindowRecord, c: &WindowRecord)
    ensures
        final(cmds)@ == old(cmds)@ + resolution_cmds(*r, *c),
{
    if r.resolution != c.resolution {
        cmds.push(
            NativeCommand::RequestInnerSize(
                r.resolution.physical_width,
                r.resolution.physical_height,
            ),
        );
    }
}

fn push_cursor_position(cmds: &mut Vec<NativeCommand>, r: &WindowRecord, c: &WindowRecord)
    ensures
        final(cmds)@ == old(cmds)@ + cursor_position_cmds(*r, *c),
{
    let ghost start = cmds@;
    if !same_opt_ivec(r.cursor_position, c.cursor_position) {
        match r.cursor_position {
            Some(p) => cmds.push(NativeCommand::SetCursorPosition(p)),
            None => {},
        }
    }
    assert(cmds@ =~= start + cursor_position_cmds(*r, *c));
}

fn push_cursor(cmds: &mut Vec<NativeCommand>, r: &WindowRecord, c: &WindowRecord)
    ensures
        final(cmds)@ == old(cmds)@ + cursor_cmds(*r, *c),
{
    let ghost start = cmds@;
    push_cursor_position(cmds, r, c);
    if r.cursor.icon != c.cursor.icon {
        cmds.push(NativeCommand::SetCursorIcon(r.cursor.icon));
    }
    if r.cursor.grab_mode != c.cursor.grab_mode {
        cmds.push(NativeCommand::SetCursorGrab(r.cursor.grab_mode));
    }
    if r.cursor.visible != c.cursor.visible {
        cmds.push(NativeCommand::SetCursorVisible(r.cursor.visible));
    }
    if r.cursor.hit_test != c.cursor.hit_test {
        cmds.push(NativeCommand::SetCursorHitTest(r.cursor.hit_test));
    }
    assert(cmds@ =~= start + cursor_cmds(*r, *c));
}

fn push_frame(cmds: &mut Vec<NativeCommand>, r: &WindowRecord, c: &WindowRecord, f: &NativeFacts)
    ensures
        final(cmds)@ == old(cmds)@ + frame_cmds(*r, *c, *f),
{
    let ghost start = cmds@;
    if r.decorations != c.decorations && r.decorations != f.decorated {
        cmds.push(NativeCommand::SetDecorations(r.decorations));
    }
    if r.resizable != c.resizable && r.resizable != f.resizable {
        cmds.push(NativeCommand::SetResizable(r.resizable));
    }
    if r.enabled_buttons != c.enabled_buttons {
        cmds.push(NativeCommand::SetEnabledButtons(r.enabled_buttons));
    }
    assert(cmds@ =~= start + frame_cmds(*r, *c, *f));
}

fn push_constraints(cmds: &mut Vec<NativeCommand>, r: &WindowRecord, c: &WindowRecord)
    ensures
        final(cmds)@ == old(cmds)@ + constraint_cmds(*r, *c),
{
    let ghost start = cmds@;
    if !r.resize_constraints.same(&c.resize_constraints) {
        let k = check_constraints(r.resize_constraints);
        cmds.push(NativeCommand::SetMinInnerSize(k.min_width, k.min_height));
        match (k.max_width, k.max_height) {
            (Some(w), Some(h)) => cmds.push(NativeCommand::SetMaxInnerSize(w, h)),
            _ => {},
        }
    }
    assert(cmds@ =~= start + constraint_cmds(*r, *c));
}

fn push_position(cmds: &mut Vec<NativeCommand>, r: &WindowRecord, c: &WindowRecord, f: &NativeFacts)
    ensures
        final(cmds)@ == old(cmds)@ + position_cmds(*r, *c, *f),
{
    if r.position != c.position {
        match resolve_position(r.position, r.resolution, &f.topology) {
            Some(p) => {
                if !same_opt_ivec(f.outer_position, Some(p)) {
                    cmds.push(NativeCommand::SetOuterPosition(p));
                }
            },
            None => {},
        }
    }
}

fn push_requests(cmds: &mut Vec<NativeCommand>, r: &mut WindowRecord)
    ensures
        final(cmds)@ == old(cmds)@ + request_cmds(*old(r)),
        *final(r) == (WindowRecord { maximize_request: None, minimize_request: None, ..*old(r) }),
{
    let ghost start = cmds@;
    if let Some(m) = r.maximize_request.take() {
        cmds.push(NativeCommand::SetMaximized(m));
    }
    if let Some(m) = r.minimize_request.take() {
        cmds.push(NativeCommand::SetMinimized(m));
    }
    assert(cmds@ =~= start + request_cmds(*old(r)));
}

fn push_focus_level(cmds: &mut Vec<NativeCommand>, r: &WindowRecord, c: &WindowRecord)
    ensures
        final(cmds)@ == old(cmds)@ + focus_cmds(*r, *c) + level_cmds(*r, *c),
{
    let ghost start = cmds@;
    if r.focused != c.focused && r.focused {
        cmds.push(NativeCommand::Focus);
    }
    let ghost mid = cmds@;
    if r.window_level != c.window_level {
        cmds.push(NativeCommand::SetWindowLevel(r.window_level));
    }
    assert(mid =~= start + focus_cmds(*r, *c));
}

fn push_tail(cmds: &mut Vec<NativeCommand>, r: &WindowRecord, c: &WindowRecord)
    ensures
        final(cmds)@ == old(cmds)@ + tail_cmds(*r, *c),
{
    let ghost start = cmds@;
    if r.ime_enabled != c.ime_enabled {
        cmds.push(NativeCommand::SetImeAllowed(r.ime_enabled));
    }
    if r.ime_position != c.ime_position {
        cmds.push(NativeCommand::SetImeCursorArea(r.ime_position, IME_AREA_SIZE));
    }
    if !same_theme(r.window_theme, c.window_theme) {
        cmds.push(NativeCommand::SetTheme(r.window_theme));
    }
    if r.visible != c.visible {
        cmds.push(NativeCommand::SetVisible(r.visible));
    }
    assert(cmds@ =~= start + tail_cmds(*r, *c));
}

/// Compares `record` with the cached state and lists the native calls that
/// bring the native window in line with it, in the order they are to be
/// made. Takes the one-shot maximize and minimize requests out of the record,
/// and puts transparency and the canvas binding back to their cached values,
/// with a warning, since these cannot change once the window exists.
pub fn plan_changes(record: &mut WindowRecord, cache: &CachedWindow, facts: &NativeFacts) -> (p:
    ReconcilePlan)
    ensures
        p.commands@ == planned_commands(*old(record), cache.window, *facts),
        p.warnings@ == planned_warnings(*old(record), cache.window, *facts),
        *final(record) == planned_record(*old(record), cache.window),
{
    let c = &cache.window;
    let mut cmds: Vec<NativeCommand> = Vec::new();
    let mut warnings: Vec<ReconcileWarning> = Vec::new();
    push_title(&mut cmds, record, c);
    push_mode(&mut cmds, &mut warnings, record, c, facts);
    push_cursor(&mut cmds, record, c);
    push_frame(&mut cmds, record, c, facts);
    push_constraints(&mut cmds, record, c);
    push_position(&mut cmds, record, c, facts);
    push_focus_level(&mut cmds, record, c);
    push_tail(&mut cmds, record, c);
    push_requests(&mut cmds, record);
    if record.transparent != c.transparent {
        record.transparent = c.transparent;
        warnings.push(ReconcileWarning::TransparencyUnchangeable);
    }
    if !same_canvas(&record.canvas, &c.canvas) {
        record.canvas = clone_canvas(&c.canvas);
        warnings.push(ReconcileWarning::CanvasUnchangeable);
    }
    assert(cmds@ =~= planned_commands(*old(record), *c, *facts));
    assert(warnings@ =~= planned_warnings(*old(record), *c, *facts));
    ReconcilePlan { commands: cmds, warnings }
}

/// The record as the first pass after creation sees it: pending one-shot
/// requests are left to the passes that follow.
pub open spec fn initial_record(r: WindowRecord) -> WindowRecord {
    WindowRecord { maximize_request: None, minimize_request: None, ..r }
}

/// The native calls that follow the building of a window, for the settings a
/// window builder does not take: the plan that brings a default window with
/// the record's title to the record.
pub fn plan_creation(record: &WindowRecord, facts: &NativeFacts) -> (cmds: Vec<NativeCommand>)
    ensures
        cmds@ == planned_commands(
            initial_record(*record),
            crate::record::default_record(record.title),
            *facts,
        ),
{
    let mut copy = record.snapshot();
    copy.maximize_request = None;
    copy.minimize_request = None;
    let baseline = CachedWindow { window: WindowRecord::new(record.title.clone()) };
    let plan = plan_changes(&mut copy, &baseline, facts);
    plan.commands
}

/// The size request that opens a pass: the record's inner size, where it
/// differs from the cached one. It is made, and its answer taken in with
/// `take_granted_size`, before the plan, so that the plan (a centred
/// position, a fitting video mode) works on the size the native layer gave.
pub fn plan_resize(record: &WindowRecord, cache: &CachedWindow) -> (cmds: Vec<NativeCommand>)
    ensures
        cmds@ == resolution_cmds(*record, cache.window),
{
    let mut cmds: Vec<NativeCommand> = Vec::new();
    push_resolution(&mut cmds, record, &cache.window);
    assert(cmds@ =~= resolution_cmds(*record, cache.window));
    cmds
}

/// Takes in the answer to the size request: a size the native layer granted
/// in place of the one asked for is written into the record and announced.
pub fn take_granted_size(window: u64, record: &mut WindowRecord, granted: Option<(u32, u32)>) -> (r:
    Option<WindowResized>)
    ensures
        *final(record) == granted_record(*old(record), granted),
        r == (match granted {
            Some((w, h)) => Some(WindowResized { window, width: w, height: h }),
            None => None,
        }),
{
    match granted {
        Some((w, h)) => {
            record.resolution.physical_width = w;
            record.resolution.physical_height = h;
            Some(WindowResized { window, width: w, height: h })
        },
        None => None,
    }
}

/// Takes in what the native layer answered to a plan: a refused cursor
/// hit-test setting is put back to its cached value with a warning. The cache
/// then holds the record as it stands, whatever was left undone: a fullscreen
/// switch deferred for want of a monitor or a video mode is not retried on its
/// own, but waits for the next change of the mode.
pub fn finish_changes(record: &mut WindowRecord, cache: &mut CachedWindow, hit_test_refused: bool) -> (w:
    Option<ReconcileWarning>)
    ensures
        *final(record) == finished_record(*old(record), old(cache).window, hit_test_refused),
        final(cache).window == *final(record),
        w == (if hit_test_refused {
            Some(ReconcileWarning::CursorHitTestRefused)
        } else {
            None
        }),
{
    let mut warning: Option<ReconcileWarning> = None;
    if hit_test_refused {
        record.cursor.hit_test = cache.window.cursor.hit_test;
        warning = Some(ReconcileWarning::CursorHitTestRefused);
    }
    cache.window = record.snapshot();
    warning
}

} // verus!
