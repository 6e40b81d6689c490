use vstd::prelude::*;
use crate::record::{IVec2, MonitorSelection, Resolution, WindowPosition};

verus! {

/// A video mode that a monitor supports.
#[derive(Clone, Copy, Debug, PartialEq, Eq, Structural)]
pub struct VideoMode {
    pub width: u32,
    pub height: u32,
    pub bit_depth: u16,
    pub refresh_rate_millihertz: u32,
}

/// A monitor: its top-left corner and size in physical pixels, and its modes.
#[derive(Clone, Debug)]
pub struct Monitor {
    pub position: IVec2,
    pub width: u32,
    pub height: u32,
    pub video_modes: Vec<VideoMode>,
}

/// What the native layer reports about the monitors, indices into `monitors`.
#[derive(Clone, Debug)]
pub struct MonitorTopology {
    pub monitors: Vec<Monitor>,
    pub primary: Option<usize>,
    pub current: Option<usize>,
}

pub open spec fn abs_diff(a: u32, b: u32) -> int {
    if a > b {
        a - b
    } else {
        b - a
    }
}

/// `a` is strictly preferred to `b`: with no target, larger width, then larger
/// height, then higher refresh rate; with a target size, closer width, then
/// closer height, then higher refresh rate.
pub open spec fn outranks(a: VideoMode, b: VideoMode, target: Option<(u32, u32)>) -> bool {
    match target {
        None => a.width > b.width || (a.width == b.width && (a.height > b.height || (a.height
            == b.height && a.refresh_rate_millihertz > b.refresh_rate_millihertz))),
        Some((w, h)) => abs_diff(a.width, w) < abs_diff(b.width, w) || (abs_diff(a.width, w)
            == abs_diff(b.width, w) && (abs_diff(a.height, h) < abs_diff(b.height, h) || (
        abs_diff(a.height, h) == abs_diff(b.height, h) && a.refresh_rate_millihertz
            > b.refresh_rate_millihertz))),
    }
}

/// Index of the first mode among the first `n` that no other outranks.
pub open spec fn chosen_index(modes: Seq<VideoMode>, n: nat, target: Option<(u32, u32)>) -> int
    decreases n,
{
    if n <= 1 {
        0
    } else {
        let b = chosen_index(modes, (n - 1) as nat, target);
        if outranks(modes[n - 1], modes[b], target) {
            n - 1
        } else {
            b
        }
    }
}

pub open spec fn chosen_mode(modes: Seq<VideoMode>, target: Option<(u32, u32)>) -> Option<int> {
    if modes.len() == 0 {
        None
    } else {
        Some(chosen_index(modes, modes.len(), target))
    }
}

proof fn lemma_outranks_transitive(a: VideoMode, b: VideoMode, c: VideoMode, t: Option<(u32, u32)>)
    ensures
        outranks(a, b, t) && outranks(b, c, t) ==> outranks(a, c, t),
        !(outranks(a, b, t) && outranks(b, a, t)),
        !outranks(a, a, t),
{
}

proof fn lemma_chosen_index(modes: Seq<VideoMode>, n: nat, t: Option<(u32, u32)>)
    requires
        1 <= n <= modes.len(),
    ensures
        0 <= chosen_index(modes, n, t) < n,
        forall|j: int| 0 <= j < n ==> !outranks(modes[j], modes[chosen_index(modes, n, t)], t),
        forall|j: int|
            0 <= j < chosen_index(modes, n, t) ==> outranks(
                modes[chosen_index(modes, n, t)],
                modes[j],
                t,
            ),
    decreases n,
{
    if n > 1 {
        lemma_chosen_index(modes, (n - 1) as nat, t);
        let b = chosen_index(modes, (n - 1) as nat, t);
        assert forall|j: int| 0 <= j < n implies !outranks(
            modes[j],
            modes[chosen_index(modes, n, t)],
            t,
        ) by {
            lemma_outranks_transitive(modes[j], modes[b], modes[n - 1], t);
            lemma_outranks_transitive(modes[j], modes[n - 1], modes[b], t);
        }
        assert forall|j: int| 0 <= j < chosen_index(modes, n, t) implies outranks(
            modes[chosen_index(modes, n, t)],
            modes[j],
            t,
        ) by {
            lemma_outranks_transitive(modes[n - 1], modes[b], modes[j], t);
            lemma_outranks_transitive(modes[j], modes[b], modes[j], t);
        }
    }
}

fn abs_diff_u32(a: u32, b: u32) -> (r: u32)
    ensures
        r == abs_diff(a, b),
{
    if a > b {
        a - b
    } else {
        b - a
    }
}

fn outranks_exec(a: VideoMode, b: VideoMode, target: Option<(u32, u32)>) -> (r: bool)
    ensures
        r == outranks(a, b, target),
{
    match target {
        None => a.width > b.width || (a.width == b.width && (a.height > b.height || (a.height
            == b.height && a.refresh_rate_millihertz > b.refresh_rate_millihertz))),
        Some((w, h)) => {
            let aw = abs_diff_u32(a.width, w);
            let bw = abs_diff_u32(b.width, w);
            let ah = abs_diff_u32(a.height, h);
            let bh = abs_diff_u32(b.height, h);
            aw < bw || (aw == bw && (ah < bh || (ah == bh && a.refresh_rate_millihertz
                > b.refresh_rate_millihertz)))
        },
    }
}

pub(crate) fn select_mode(modes: &Vec<VideoMode>, target: Option<(u32, u32)>) -> (r: Option<usize>)
    ensures
        r matches Some(i) ==> chosen_mode(modes@, target) == Some(i as int) && i < modes@.len(),
        r is None ==> chosen_mode(modes@, target) is None,
{
    if modes.len() == 0 {
        return None;
    }
    let mut best: usize = 0;
    let mut i: usize = 1;
    while i < modes.len()
        invariant
            1 <= i <= modes.len(),
            best as int == chosen_index(modes@, i as nat, target),
            best < i,
        decreases modes.len() - i,
    {
        if outranks_exec(modes[i], modes[best], target) {
            best = i;
        }
        i = i + 1;
    }
    Some(best)
}

/// The mode with the largest size, then the highest refresh rate; the first
/// such mode where several tie. `None` for a monitor without modes.
pub fn best_video_mode(modes: &Vec<VideoMode>) -> (r: Option<usize>)
    ensures
        r is None <==> modes@.len() == 0,
        r matches Some(i) ==> {
            &&& i < modes@.len()
            &&& forall|j: int| 0 <= j < modes@.len() ==> !outranks(modes@[j], modes@[i as int], None)
            &&& forall|j: int| 0 <= j < i ==> outranks(modes@[i as int], modes@[j], None)
        },
{
    let r = select_mode(modes, None);
    proof {
        if modes@.len() > 0 {
            lemma_chosen_index(modes@, modes@.len(), None);
        }
    }
    r
}

/// The mode whose size is closest to `width` x `height` (width first), then the
/// one with the highest refresh rate; the first such mode where several tie.
/// `None` for a monitor without modes.
pub fn fitting_video_mode(modes: &Vec<VideoMode>, width: u32, height: u32) -> (r: Option<usize>)
    ensures
        r is None <==> modes@.len() == 0,
        r matches Some(i) ==> {
            &&& i < modes@.len()
            &&& forall|j: int|
                0 <= j < modes@.len() ==> !outranks(modes@[j], modes@[i as int], Some((width, height)))
            &&& forall|j: int| 0 <= j < i ==> outranks(modes@[i as int], modes@[j], Some((width, height)))
        },
{
    let r = select_mode(modes, Some((width, height)));
    proof {
        if modes@.len() > 0 {
            lemma_chosen_index(modes@, modes@.len(), Some((width, height)));
        }
    }
    r
}

/// The monitor that a selection names, if the topology has it.
pub open spec fn selected_monitor(sel: MonitorSelection, t: MonitorTopology) -> Option<Monitor> {
    let idx = match sel {
        MonitorSelection::Current => t.current,
        MonitorSelection::Primary => t.primary,
        MonitorSelection::Index(n) => Some(n),
    };
    match idx {
        Some(i) => if i < t.monitors@.len() {
            Some(t.monitors@[i as int])
        } else {
            None
        },
        None => None,
    }
}

pub fn select_monitor(sel: MonitorSelection, t: &MonitorTopology) -> (r: Option<&Monitor>)
    ensures
        r matches Some(m) ==> selected_monitor(sel, *t) == Some(*m),
        r is None ==> selected_monitor(sel, *t) is None,
{
    let idx = match sel {
        MonitorSelection::Current => t.current,
        MonitorSelection::Primary => t.primary,
        MonitorSelection::Index(n) => Some(n),
    };
    match idx {
        Some(i) => if i < t.monitors.len() {
            Some(&t.monitors[i])
        } else {
            None
        },
        None => None,
    }
}

pub open spec fn clamp_i32(v: int) -> i32 {
    if v < i32::MIN {
        i32::MIN
    } else if v > i32::MAX {
        i32::MAX
    } else {
        v as i32
    }
}

/// Offset that centres a span of `inner` pixels in one of `outer` pixels, with
/// a span wider than its container put at the container's start.
pub open spec fn centre_offset(outer: u32, inner: u32) -> int {
    if outer > inner {
        (outer - inner) / 2
    } else {
        0
    }
}

/// Where the native window's outer top-left corner goes, in physical pixels:
/// nowhere in particular when automatic or when the chosen monitor is unknown.
pub open spec fn target_position(
    pos: WindowPosition,
    res: Resolution,
    t: MonitorTopology,
) -> Option<IVec2> {
    match pos {
        WindowPosition::Automatic => None,
        WindowPosition::At(p) => Some(p),
        WindowPosition::Centered(sel) => match selected_monitor(sel, t) {
            Some(m) => Some(
                IVec2 {
                    x: clamp_i32(m.position.x + centre_offset(m.width, res.physical_width)),
                    y: clamp_i32(m.position.y + centre_offset(m.height, res.physical_height)),
                },
            ),
            None => None,
        },
    }
}

fn clamp_to_i32(v: i64) -> (r: i32)
    ensures
        r == clamp_i32(v as int),
{
    if v < i32::MIN as i64 {
        i32::MIN
    } else if v > i32::MAX as i64 {
        i32::MAX
    } else {
        v as i32
    }
}

fn centre(origin: i32, outer: u32, inner: u32) -> (r: i32)
    ensures
        r == clamp_i32(origin + centre_offset(outer, inner)),
{
    let off: u32 = if outer > inner {
        (outer - inner) / 2
    } else {
        0
    };
    clamp_to_i32(origin as i64 + off as i64)
}

pub fn resolve_position(pos: WindowPosition, res: Resolution, t: &MonitorTopology) -> (r: Option<
    IVec2,
>)
    ensures
        r == target_position(pos, res, *t),
{
    match pos {
        WindowPosition::Automatic => None,
        WindowPosition::At(p) => Some(p),
        WindowPosition::Centered(sel) => match select_monitor(sel, t) {
            Some(m) => Some(
                IVec2 {
                    x: centre(m.position.x, m.width, res.physical_width),
                    y: centre(m.position.y, m.height, res.physical_height),
                },
            ),
            None => None,
        },
    }
}

} // verus!
