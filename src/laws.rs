use vstd::prelude::*;
use crate::lifecycle::{closed_ids, created_record};
use crate::reconcile::{
    finished_record, granted_record, planned_commands, planned_record, planned_warnings,
    request_cmds, resolution_cmds, NativeCommand, NativeFacts, ReconcileWarning,
};
use crate::record::{WindowRecord, WindowTheme};

verus! {

/// A pass run again right after a pass, with no change to the record in
/// between, makes no native call (no size request, nothing in the plan),
/// reports nothing and leaves the record as it is, whatever the native layer
/// answered the first time and reports the second.
pub proof fn lemma_reconcile_idempotent(
    record: WindowRecord,
    cached: WindowRecord,
    granted: Option<(u32, u32)>,
    hit_test_refused: bool,
    later_facts: NativeFacts,
)
    ensures
        ({
            let r = finished_record(
                planned_record(granted_record(record, granted), cached),
                cached,
                hit_test_refused,
            );
            &&& resolution_cmds(r, r) == Seq::<NativeCommand>::empty()
            &&& planned_commands(r, r, later_facts) == Seq::<NativeCommand>::empty()
            &&& planned_warnings(r, r, later_facts) == Seq::<ReconcileWarning>::empty()
            &&& planned_record(r, r) == r
        }),
{
    let r = finished_record(
        planned_record(granted_record(record, granted), cached),
        cached,
        hit_test_refused,
    );
    assert(resolution_cmds(r, r) =~= Seq::<NativeCommand>::empty());
    assert(planned_commands(r, r, later_facts) =~= Seq::<NativeCommand>::empty());
    assert(planned_warnings(r, r, later_facts) =~= Seq::<ReconcileWarning>::empty());
}

/// The cached state made at creation is the record the native window was
/// built from, but for what the native layer reports (theme, scale factor).
/// The first pass against it then makes no native call but the pending
/// one-shot requests, and reports nothing.
pub proof fn lemma_creation_snapshot(
    record: WindowRecord,
    native_theme: Option<WindowTheme>,
    scale_factor_milli: u32,
    facts: NativeFacts,
)
    ensures
        ({
            let r = created_record(record, native_theme, scale_factor_milli);
            &&& r.title == record.title
            &&& r.mode == record.mode
            &&& r.position == record.position
            &&& r.transparent == record.transparent
            &&& (native_theme is None ==> r.window_theme == record.window_theme)
            &&& resolution_cmds(r, r) == Seq::<NativeCommand>::empty()
            &&& planned_commands(r, r, facts) == request_cmds(record)
            &&& planned_warnings(r, r, facts) == Seq::<ReconcileWarning>::empty()
        }),
{
    let r = created_record(record, native_theme, scale_factor_milli);
    assert(resolution_cmds(r, r) =~= Seq::<NativeCommand>::empty());
    assert(planned_commands(r, r, facts) =~= request_cmds(record));
    assert(planned_warnings(r, r, facts) =~= Seq::<ReconcileWarning>::empty());
}

/// Teardown never announces as closed an identifier whose record exists again
/// when the removals are handled, nor one that never had a native window.
pub proof fn lemma_no_phantom_close(removed: Seq<u64>, existing: Seq<u64>, live: Set<u64>, id: u64)
    requires
        existing.contains(id) || !live.contains(id),
    ensures
        !closed_ids(removed, existing, live).contains(id),
    decreases removed.len(),
{
    if removed.len() > 0 {
        lemma_no_phantom_close(removed.drop_last(), existing, live, id);
        let prev = closed_ids(removed.drop_last(), existing, live);
        let x = removed.last();
        let tail = if !existing.contains(x) && live.contains(x) && !prev.contains(x) {
            seq![x]
        } else {
            seq![]
        };
        assert(closed_ids(removed, existing, live) == prev + tail);
        if (prev + tail).contains(id) {
            let k = choose|k: int| 0 <= k < (prev + tail).len() && (prev + tail)[k] == id;
            if k < prev.len() {
                assert(prev[k] == id);
            }
        }
    }
}

/// Teardown announces each identifier at most once.
pub proof fn lemma_closed_once(removed: Seq<u64>, existing: Seq<u64>, live: Set<u64>)
    ensures
        closed_ids(removed, existing, live).no_duplicates(),
    decreases removed.len(),
{
    if removed.len() > 0 {
        lemma_closed_once(removed.drop_last(), existing, live);
    }
}

spec fn none_matches(s: Seq<NativeCommand>, p: spec_fn(NativeCommand) -> bool) -> bool {
    forall|i: int| 0 <= i < s.len() ==> !p(s[i])
}

proof fn lemma_none_matches_concat(
    a: Seq<NativeCommand>,
    b: Seq<NativeCommand>,
    p: spec_fn(NativeCommand) -> bool,
)
    requires
        none_matches(a, p),
        none_matches(b, p),
    ensures
        none_matches(a + b, p),
{
    assert forall|i: int| 0 <= i < (a + b).len() implies !p((a + b)[i]) by {
        if i < a.len() {
            assert((a + b)[i] == a[i]);
        } else {
            assert((a + b)[i] == b[i - a.len()]);
        }
    }
}

spec fn is_focus(c: NativeCommand) -> bool {
    c == NativeCommand::Focus
}

spec fn is_maximize(c: NativeCommand) -> bool {
    c is SetMaximized
}

/// The commands of a pass before the one-shot requests.
spec fn head_cmds(r: WindowRecord, c: WindowRecord, f: NativeFacts) -> Seq<NativeCommand> {
    crate::reconcile::title_cmds(r, c) + crate::reconcile::mode_cmds(r, c, f)
        + crate::reconcile::cursor_cmds(r, c)
        + crate::reconcile::frame_cmds(r, c, f) + crate::reconcile::constraint_cmds(r, c)
        + crate::reconcile::position_cmds(r, c, f)
}

proof fn lemma_head_free(
    r: WindowRecord,
    c: WindowRecord,
    f: NativeFacts,
    p: spec_fn(NativeCommand) -> bool,
)
    requires
        forall|x: NativeCommand| #[trigger] p(x) ==> (x == NativeCommand::Focus || x is SetMaximized),
    ensures
        none_matches(head_cmds(r, c, f), p),
{
    let g1 = crate::reconcile::title_cmds(r, c);
    let g2 = crate::reconcile::mode_cmds(r, c, f);
    let g4 = crate::reconcile::cursor_cmds(r, c);
    let g5 = crate::reconcile::frame_cmds(r, c, f);
    let g6 = crate::reconcile::constraint_cmds(r, c);
    let g7 = crate::reconcile::position_cmds(r, c, f);
    assert(none_matches(g1, p));
    assert(none_matches(g2, p));
    assert(none_matches(g4, p));
    assert(none_matches(g5, p));
    assert(none_matches(g6, p));
    assert(none_matches(g7, p));
    lemma_none_matches_concat(g1, g2, p);
    lemma_none_matches_concat(g1 + g2, g4, p);
    lemma_none_matches_concat(g1 + g2 + g4, g5, p);
    lemma_none_matches_concat(g1 + g2 + g4 + g5, g6, p);
    lemma_none_matches_concat(g1 + g2 + g4 + g5 + g6, g7, p);
}

/// A pass calls for focus only where the record asks for focus and the cached
/// state had none: it never takes focus away, and leaves the record's focus
/// field as requested.
pub proof fn lemma_focus_monotonic(
    record: WindowRecord,
    cached: WindowRecord,
    facts: NativeFacts,
    hit_test_refused: bool,
)
    ensures
        planned_commands(record, cached, facts).contains(NativeCommand::Focus) ==> record.focused
            && !cached.focused,
        planned_record(record, cached).focused == record.focused,
        finished_record(planned_record(record, cached), cached, hit_test_refused).focused
            == record.focused,
{
    let r = record;
    let c = cached;
    let f = facts;
    if !(r.focused && !c.focused) {
        let p = |x: NativeCommand| is_focus(x);
        lemma_head_free(r, c, f, p);
        let g9 = crate::reconcile::focus_cmds(r, c);
        let g10 = crate::reconcile::level_cmds(r, c);
        let g11 = crate::reconcile::tail_cmds(r, c);
        let g12 = request_cmds(r);
        assert(none_matches(g9, p));
        assert(none_matches(g10, p));
        assert(none_matches(g11, p));
        assert(none_matches(g12, p));
        let h = head_cmds(r, c, f);
        lemma_none_matches_concat(h, g9, p);
        lemma_none_matches_concat(h + g9, g10, p);
        lemma_none_matches_concat(h + g9 + g10, g11, p);
        lemma_none_matches_concat(h + g9 + g10 + g11, g12, p);
        let cmds = planned_commands(r, c, f);
        assert(cmds == h + g9 + g10 + g11 + g12);
        assert(none_matches(cmds, p));
        if cmds.contains(NativeCommand::Focus) {
            let k = choose|k: int| 0 <= k < cmds.len() && cmds[k] == NativeCommand::Focus;
            assert(p(cmds[k]));
        }
    }
}

/// A pending maximize request is issued exactly once by the pass that finds
/// it (one maximize call stands in its plan), is taken out of the record, and
/// is not issued again by the next pass.
#[verifier::rlimit(50)]
pub proof fn lemma_maximize_once(
    record: WindowRecord,
    cached: WindowRecord,
    facts: NativeFacts,
    hit_test_refused: bool,
    later_facts: NativeFacts,
    maximized: bool,
)
    requires
        record.maximize_request == Some(maximized),
    ensures
        ({
            let cmds = planned_commands(record, cached, facts);
            exists|k: int|
                0 <= k < cmds.len() && cmds[k] == NativeCommand::SetMaximized(maximized) && forall|
                    j: int,
                | 0 <= j < cmds.len() && j != k ==> !(#[trigger] cmds[j] is SetMaximized)
        }),
        planned_record(record, cached).maximize_request is None,
        ({
            let r = finished_record(planned_record(record, cached), cached, hit_test_refused);
            forall|m: bool| !planned_commands(r, r, later_facts).contains(NativeCommand::SetMaximized(m))
        }),
{
    let next = finished_record(planned_record(record, cached), cached, hit_test_refused);
    assert(planned_commands(next, next, later_facts) =~= Seq::<NativeCommand>::empty());
    let r = record;
    let c = cached;
    let f = facts;
    let p = |x: NativeCommand| is_maximize(x);
    lemma_head_free(r, c, f, p);
    let h = head_cmds(r, c, f);
    let x = NativeCommand::SetMaximized(maximized);
    let rest = match r.minimize_request {
        Some(m) => seq![NativeCommand::SetMinimized(m)],
        None => seq![],
    };
    assert(request_cmds(r) =~= seq![x] + rest);
    let g9 = crate::reconcile::focus_cmds(r, c);
    let g10 = crate::reconcile::level_cmds(r, c);
    let g11 = crate::reconcile::tail_cmds(r, c);
    assert(none_matches(rest, p));
    assert(none_matches(g9, p));
    assert(none_matches(g10, p));
    assert(none_matches(g11, p));
    lemma_none_matches_concat(h, g9, p);
    lemma_none_matches_concat(h + g9, g10, p);
    lemma_none_matches_concat(h + g9 + g10, g11, p);
    let pre = h + g9 + g10 + g11;
    let cmds = planned_commands(r, c, f);
    assert(cmds =~= pre + seq![x] + rest);
    let k = pre.len() as int;
    assert(cmds[k] == x);
    assert forall|j: int| 0 <= j < cmds.len() && j != k implies !(#[trigger] cmds[j] is SetMaximized) by {
        if j < k {
            assert(cmds[j] == pre[j]);
            assert(!p(pre[j]));
        } else {
            assert(cmds[j] == rest[j - k - 1]);
            assert(!p(rest[j - k - 1]));
        }
    }
}

} // verus!
