use vstd::prelude::*;
use crate::reconcile::NativeCommand;
use crate::record::WindowRecord;
use crate::registry::WindowRegistry;

verus! {

/// Extra data kept with a window that takes part in its creation and in the
/// passes that follow changes.
pub trait WindowHook: Sized {
    /// Native settings added while the window is built.
    fn builder_hook(&self, window: &WindowRecord) -> Vec<NativeCommand>;

    /// Native settings applied once, right after the window was built.
    fn window_hook(&self, window: &WindowRecord) -> Vec<NativeCommand>;

    /// The value a change from `cached` leaves, and the native settings that
    /// follow it.
    spec fn changed_spec(&self, cached: &Self) -> (Self, Seq<NativeCommand>);

    /// Native settings that follow a change of this value from `cached`.
    fn changed_hook(&mut self, cached: &Self) -> (r: Vec<NativeCommand>)
        ensures
            (*final(self), r@) == old(self).changed_spec(cached);

    /// A copy of this value.
    fn snapshot(&self) -> (r: Self)
        ensures
            r == *self;

    /// Whether this value equals `other`.
    fn same(&self, other: &Self) -> (r: bool)
        ensures
            r == (*self == *other);
}

/// Hook data that carries nothing and asks for nothing.
#[derive(Clone, Copy, Debug, Default, PartialEq, Eq, Structural)]
pub struct NoHook;

impl WindowHook for NoHook {
    open spec fn changed_spec(&self, cached: &Self) -> (Self, Seq<NativeCommand>) {
        (*self, Seq::empty())
    }

    fn builder_hook(&self, window: &WindowRecord) -> (r: Vec<NativeCommand>)
        ensures
            r@.len() == 0,
    {
        Vec::new()
    }

    fn window_hook(&self, window: &WindowRecord) -> (r: Vec<NativeCommand>)
        ensures
            r@.len() == 0,
    {
        Vec::new()
    }

    fn changed_hook(&mut self, cached: &Self) -> (r: Vec<NativeCommand>)
        ensures
            r@.len() == 0,
            *final(self) == *old(self),
    {
        let r = Vec::new();
        assert(r@ =~= Seq::<NativeCommand>::empty());
        r
    }

    fn snapshot(&self) -> (r: Self)
        ensures
            r == *self,
    {
        NoHook
    }

    fn same(&self, other: &Self) -> (r: bool)
        ensures
            r == (*self == *other),
    {
        true
    }
}

/// The pass for one hook value: where the window `id` has a native window and
/// the value differs from its cached copy, the hook reacts to the change from
/// the cached value, and the cache then holds the value as it stands. Where
/// the window has none, or the value is unchanged, nothing happens and `None`
/// comes back.
pub fn changed_hooks<T: WindowHook, H>(
    registry: &WindowRegistry<H>,
    id: u64,
    data: &mut T,
    cache: &mut T,
) -> (r: Option<Vec<NativeCommand>>)
    ensures
        r is Some == (registry.live().contains(id) && *old(data) != *old(cache)),
        r is Some ==> *final(cache) == *final(data),
        r matches Some(c) ==> (*final(data), c@) == old(data).changed_spec(&*old(cache)),
        r is None ==> *final(cache) == *old(cache) && *final(data) == *old(data),
{
    if registry.contains(id) && !data.same(cache) {
        let cmds = data.changed_hook(cache);
        *cache = data.snapshot();
        Some(cmds)
    } else {
        None
    }
}

} // verus!
