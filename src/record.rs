use vstd::prelude::*;

verus! {

/// How the window occupies the screen.
#[derive(Clone, Copy, Debug, PartialEq, Eq, Structural)]
pub enum WindowMode {
    Windowed,
    BorderlessFullscreen,
    SizedFullscreen,
    Fullscreen,
}

#[derive(Clone, Copy, Debug, PartialEq, Eq, Structural)]
pub enum WindowTheme {
    Light,
    Dark,
}

#[derive(Clone, Copy, Debug, PartialEq, Eq, Structural)]
pub enum WindowLevel {
    AlwaysOnBottom,
    Normal,
    AlwaysOnTop,
}

#[derive(Clone, Copy, Debug, PartialEq, Eq, Structural)]
pub enum CursorGrabMode {
    Free,
    Confined,
    Locked,
}

/// Which monitor a centred window is placed on.
#[derive(Clone, Copy, Debug, PartialEq, Eq, Structural)]
pub enum MonitorSelection {
    Current,
    Primary,
    Index(usize),
}

/// A pair of signed pixel coordinates.
#[derive(Clone, Copy, Debug, PartialEq, Eq, Structural)]
pub struct IVec2 {
    pub x: i32,
    pub y: i32,
}

#[derive(Clone, Copy, Debug, PartialEq, Eq, Structural)]
pub enum WindowPosition {
    Automatic,
    Centered(MonitorSelection),
    At(IVec2),
}

#[derive(Clone, Copy, Debug, PartialEq, Eq, Structural)]
pub struct EnabledButtons {
    pub minimize: bool,
    pub maximize: bool,
    pub close: bool,
}

/// Size of the drawable area in physical pixels, and the scale factor in
/// thousandths (1000 stands for a factor of one).
#[derive(Clone, Copy, Debug, PartialEq, Eq, Structural)]
pub struct Resolution {
    pub physical_width: u32,
    pub physical_height: u32,
    pub scale_factor_milli: u32,
}

/// Bounds on the logical size; `None` leaves a maximum unbounded.
#[derive(Clone, Copy, Debug, PartialEq, Eq)]
pub struct ResizeConstraints {
    pub min_width: u32,
    pub min_height: u32,
    pub max_width: Option<u32>,
    pub max_height: Option<u32>,
}

#[derive(Clone, Copy, Debug, PartialEq, Eq, Structural)]
pub struct CursorOptions {
    pub icon: u32,
    pub grab_mode: CursorGrabMode,
    pub visible: bool,
    pub hit_test: bool,
}

/// The desired state of one window.
#[derive(Clone, Debug, PartialEq, Eq)]
pub struct WindowRecord {
    pub title: String,
    pub mode: WindowMode,
    pub resolution: Resolution,
    pub cursor: CursorOptions,
    /// Cursor position in physical pixels, if the cursor is over the window.
    pub cursor_position: Option<IVec2>,
    pub decorations: bool,
    pub resizable: bool,
    pub enabled_buttons: EnabledButtons,
    pub resize_constraints: ResizeConstraints,
    pub position: WindowPosition,
    pub window_level: WindowLevel,
    pub window_theme: Option<WindowTheme>,
    pub visible: bool,
    pub focused: bool,
    pub transparent: bool,
    /// Selector of the web canvas the window is bound to.
    pub canvas: Option<String>,
    pub ime_enabled: bool,
    pub ime_position: IVec2,
    /// Pending one-shot request to maximize (`true`) or restore (`false`).
    pub maximize_request: Option<bool>,
    /// Pending one-shot request to minimize (`true`) or restore (`false`).
    pub minimize_request: Option<bool>,
}

/// The last state of a window that was pushed to, or pulled from, the native
/// window.
#[derive(Clone, Debug)]
pub struct CachedWindow {
    pub window: WindowRecord,
}

pub open spec fn default_record(title: String) -> WindowRecord {
    WindowRecord {
        title: title,
        mode: WindowMode::Windowed,
        resolution: Resolution { physical_width: 1280, physical_height: 720, scale_factor_milli: 1000 },
        cursor: CursorOptions { icon: 0, grab_mode: CursorGrabMode::Free, visible: true, hit_test: true },
        cursor_position: None,
        decorations: true,
        resizable: true,
        enabled_buttons: EnabledButtons { minimize: true, maximize: true, close: true },
        resize_constraints: ResizeConstraints {
            min_width: 180,
            min_height: 120,
            max_width: None,
            max_height: None,
        },
        position: WindowPosition::Automatic,
        window_level: WindowLevel::Normal,
        window_theme: None,
        visible: true,
        focused: true,
        transparent: false,
        canvas: None,
        ime_enabled: false,
        ime_position: IVec2 { x: 0, y: 0 },
        maximize_request: None,
        minimize_request: None,
    }
}

pub fn clone_canvas(c: &Option<String>) -> (r: Option<String>)
    ensures
        r == *c,
{
    match c {
        Some(s) => Some(s.clone()),
        None => None,
    }
}

/// Equality of two optional strings, by their characters.
pub fn same_canvas(a: &Option<String>, b: &Option<String>) -> (r: bool)
    ensures
        r == canvas_eq(*a, *b),
{
    match (a, b) {
        (Some(x), Some(y)) => *x == *y,
        (None, None) => true,
        _ => false,
    }
}

pub open spec fn canvas_eq(a: Option<String>, b: Option<String>) -> bool {
    match (a, b) {
        (Some(x), Some(y)) => x@ == y@,
        (None, None) => true,
        _ => false,
    }
}

pub fn same_opt_ivec(a: Option<IVec2>, b: Option<IVec2>) -> (r: bool)
    ensures
        r == (a == b),
{
    match (a, b) {
        (Some(x), Some(y)) => x == y,
        (None, None) => true,
        _ => false,
    }
}

pub fn same_opt_u32(a: Option<u32>, b: Option<u32>) -> (r: bool)
    ensures
        r == (a == b),
{
    match (a, b) {
        (Some(x), Some(y)) => x == y,
        (None, None) => true,
        _ => false,
    }
}

pub fn same_theme(a: Option<WindowTheme>, b: Option<WindowTheme>) -> (r: bool)
    ensures
        r == (a == b),
{
    match (a, b) {
        (Some(x), Some(y)) => x == y,
        (None, None) => true,
        _ => false,
    }
}

impl ResizeConstraints {
    pub fn same(&self, o: &ResizeConstraints) -> (r: bool)
        ensures
            r == (*self == *o),
    {
        self.min_width == o.min_width && self.min_height == o.min_height && same_opt_u32(
            self.max_width,
            o.max_width,
        ) && same_opt_u32(self.max_height, o.max_height)
    }
}

impl WindowRecord {
    /// A record with the usual defaults and the given title.
    pub fn new(title: String) -> (r: WindowRecord)
        ensures
            r == default_record(title),
    {
        WindowRecord {
            title: title,
            mode: WindowMode::Windowed,
            resolution: Resolution {
                physical_width: 1280,
                physical_height: 720,
                scale_factor_milli: 1000,
            },
            cursor: CursorOptions {
                icon: 0,
                grab_mode: CursorGrabMode::Free,
                visible: true,
                hit_test: true,
            },
            cursor_position: None,
            decorations: true,
            resizable: true,
            enabled_buttons: EnabledButtons { minimize: true, maximize: true, close: true },
            resize_constraints: ResizeConstraints {
                min_width: 180,
                min_height: 120,
                max_width: None,
                max_height: None,
            },
            position: WindowPosition::Automatic,
            window_level: WindowLevel::Normal,
            window_theme: None,
            visible: true,
            focused: true,
            transparent: false,
            canvas: None,
            ime_enabled: false,
            ime_position: IVec2 { x: 0, y: 0 },
            maximize_request: None,
            minimize_request: None,
        }
    }

    /// A copy of the record, equal to it in every field.
    pub fn snapshot(&self) -> (r: WindowRecord)
        ensures
            r == *self,
    {
        WindowRecord {
            title: self.title.clone(),
            mode: self.mode,
            resolution: self.resolution,
            cursor: self.cursor,
            cursor_position: self.cursor_position,
            decorations: self.decorations,
            resizable: self.resizable,
            enabled_buttons: self.enabled_buttons,
            resize_constraints: self.resize_constraints,
            position: self.position,
            window_level: self.window_level,
            window_theme: self.window_theme,
            visible: self.visible,
            focused: self.focused,
            transparent: self.transparent,
            canvas: clone_canvas(&self.canvas),
            ime_enabled: self.ime_enabled,
            ime_position: self.ime_position,
            maximize_request: self.maximize_request,
            minimize_request: self.minimize_request,
        }
    }
}

} // verus!
