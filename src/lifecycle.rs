use vstd::prelude::*;
use crate::record::{CachedWindow, WindowRecord, WindowTheme};
use crate::registry::WindowRegistry;

verus! {

/// A physical length rescaled from one scale factor to another, so that the
/// logical length stays; capped at `u32::MAX`, kept where the old factor is zero.
pub open spec fn rescaled(physical: u32, old_milli: u32, new_milli: u32) -> u32 {
    if old_milli == 0 {
        physical
    } else if (physical as int) * (new_milli as int) / (old_milli as int) > u32::MAX {
        u32::MAX
    } else {
        ((physical as int) * (new_milli as int) / (old_milli as int)) as u32
    }
}

pub fn rescale(physical: u32, old_milli: u32, new_milli: u32) -> (r: u32)
    ensures
        r == rescaled(physical, old_milli, new_milli),
{
    if old_milli == 0 {
        physical
    } else {
        let p = physical as u64;
        let n = new_milli as u64;
        assert(p * n <= u32::MAX * u32::MAX) by (nonlinear_arith)
            requires
                p <= u32::MAX,
                n <= u32::MAX,
        ;
        let v: u64 = p * n / old_milli as u64;
        if v > u32::MAX as u64 {
            u32::MAX
        } else {
            v as u32
        }
    }
}

/// The record once the native window was built: the theme the native layer
/// reports, where it reports one, and its scale factor, with the logical size
/// kept.
pub open spec fn created_record(r: WindowRecord, native_theme: Option<WindowTheme>, scale_factor_milli: u32) -> WindowRecord {
    WindowRecord {
        window_theme: if native_theme is Some {
            native_theme
        } else {
            r.window_theme
        },
        resolution: crate::record::Resolution {
            physical_width: rescaled(r.resolution.physical_width, r.resolution.scale_factor_milli, scale_factor_milli),
            physical_height: rescaled(r.resolution.physical_height, r.resolution.scale_factor_milli, scale_factor_milli),
            scale_factor_milli,
        },
        ..r
    }
}

/// Registers the native window just built for record `id`, takes the theme
/// and scale factor the native layer reports into the record, and returns the
/// first cached state, equal to the record. Where `id` already had a native
/// window nothing changes and `None` comes back.
pub fn complete_creation<H>(
    registry: &mut WindowRegistry<H>,
    id: u64,
    handle: H,
    record: &mut WindowRecord,
    native_theme: Option<WindowTheme>,
    scale_factor_milli: u32,
) -> (r: Option<CachedWindow>)
    requires
        old(registry).wf(),
    ensures
        final(registry).wf(),
        old(registry).live().contains(id) ==> {
            &&& r is None
            &&& final(registry).live() == old(registry).live()
            &&& *final(record) == *old(record)
        },
        !old(registry).live().contains(id) ==> {
            &&& r matches Some(c) && c.window == *final(record)
            &&& final(registry).live() == old(registry).live().insert(id)
            &&& *final(record) == created_record(*old(record), native_theme, scale_factor_milli)
        },
{
    match registry.register(id, handle) {
        Some(_) => None,
        None => {
            if native_theme.is_some() {
                record.window_theme = native_theme;
            }
            let old = record.resolution.scale_factor_milli;
            record.resolution.physical_width = rescale(record.resolution.physical_width, old, scale_factor_milli);
            record.resolution.physical_height = rescale(record.resolution.physical_height, old, scale_factor_milli);
            record.resolution.scale_factor_milli = scale_factor_milli;
            Some(CachedWindow { window: record.snapshot() })
        },
    }
}

/// Whether `id` occurs in `ids`.
pub fn contains_id(ids: &Vec<u64>, id: u64) -> (r: bool)
    ensures
        r == ids@.contains(id),
{
    let mut i: usize = 0;
    while i < ids.len()
        invariant
            i <= ids@.len(),
            forall|j: int| 0 <= j < i ==> ids@[j] != id,
        decreases ids@.len() - i,
    {
        if ids[i] == id {
            assert(ids@[i as int] == id);
            return true;
        }
        i = i + 1;
    }
    false
}

/// The removed identifiers, in order, that no longer have a record and had a
/// native window (`live` at the start), each once.
pub open spec fn closed_ids(removed: Seq<u64>, existing: Seq<u64>, live: Set<u64>) -> Seq<u64>
    decreases removed.len(),
{
    if removed.len() == 0 {
        seq![]
    } else {
        let prev = closed_ids(removed.drop_last(), existing, live);
        let x = removed.last();
        prev + (if !existing.contains(x) && live.contains(x) && !prev.contains(x) {
            seq![x]
        } else {
            seq![]
        })
    }
}

/// The outcome of a teardown pass: the identifiers to announce as closed, in
/// order, and the native windows taken out of the registry, to be destroyed.
pub struct Teardown<H> {
    pub closed: Vec<u64>,
    pub destroyed: Vec<H>,
}

/// For each identifier whose record was removed, in order: where no record
/// under it exists any more and it has a native window, that window leaves
/// the registry and the identifier is announced as closed. Where a record
/// exists again, or no native window was ever made, nothing happens.
pub fn despawn_windows<H>(registry: &mut WindowRegistry<H>, removed: &Vec<u64>, existing: &Vec<u64>) -> (t: Teardown<H>)
    requires
        old(registry).wf(),
    ensures
        final(registry).wf(),
        t.closed@ == closed_ids(removed@, existing@, old(registry).live()),
        t.destroyed@.len() == t.closed@.len(),
        forall|i: int| 0 <= i < t.closed@.len() ==> #[trigger] t.destroyed@[i] == old(registry).handle_of(t.closed@[i]),
        forall|id: u64| #[trigger] final(registry).live().contains(id) <==> (old(registry).live().contains(id) && !t.closed@.contains(id)),
        forall|id: u64| #[trigger] final(registry).live().contains(id) ==> final(registry).handle_of(id) == old(registry).handle_of(id),
{
    let mut closed: Vec<u64> = Vec::new();
    let mut destroyed: Vec<H> = Vec::new();
    let mut i: usize = 0;
    while i < removed.len()
        invariant
            i <= removed@.len(),
            registry.wf(),
            closed@ == closed_ids(removed@.subrange(0, i as int), existing@, old(registry).live()),
            destroyed@.len() == closed@.len(),
            forall|k: int| 0 <= k < closed@.len() ==> #[trigger] destroyed@[k] == old(registry).handle_of(closed@[k]),
            forall|id: u64| #[trigger] registry.live().contains(id) <==> (old(registry).live().contains(id) && !closed@.contains(id)),
            forall|id: u64| #[trigger] registry.live().contains(id) ==> registry.handle_of(id) == old(registry).handle_of(id),
        decreases removed@.len() - i,
    {
        let id = removed[i];
        let ghost before = closed@;
        let ghost before_destroyed = destroyed@;
        let ghost reg_before = *registry;
        assert(removed@.subrange(0, i + 1).drop_last() =~= removed@.subrange(0, i as int));
        if !contains_id(existing, id) {
            match registry.remove_window(id) {
                Some(h) => {
                    assert(reg_before.live().contains(id));
                    destroyed.push(h);
                    closed.push(id);
                    assert forall|k: int| 0 <= k < closed@.len() implies #[trigger] destroyed@[k]
                        == old(registry).handle_of(closed@[k]) by {
                        if k < before.len() {
                            assert(destroyed@[k] == before_destroyed[k]);
                            assert(closed@[k] == before[k]);
                        }
                    }
                    assert forall|x: u64| closed@.contains(x) <==> (before.contains(x) || x == id) by {
                        if closed@.contains(x) {
                            let k = choose|k: int| 0 <= k < closed@.len() && closed@[k] == x;
                            if k < before.len() {
                                assert(before[k] == x);
                            }
                        }
                        if before.contains(x) {
                            let k = choose|k: int| 0 <= k < before.len() && before[k] == x;
                            assert(closed@[k] == x);
                        }
                        if x == id {
                            assert(closed@[before.len() as int] == x);
                        }
                    }
                },
                None => {},
            }
        }
        i = i + 1;
    }
    assert(removed@.subrange(0, removed@.len() as int) =~= removed@);
    Teardown { closed, destroyed }
}

} // verus!
