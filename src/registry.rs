use vstd::prelude::*;

verus! {

/// The native windows that are alive, each under the identifier of its
/// record; an identifier holds at most one.
pub struct WindowRegistry<H> {
    entries: Vec<(u64, H)>,
}

impl<H> WindowRegistry<H> {
    pub closed spec fn ids(&self) -> Seq<u64> {
        self.entries@.map_values(|e: (u64, H)| e.0)
    }

    /// The identifiers that have a live native window.
    pub closed spec fn live(&self) -> Set<u64> {
        Set::new(|id: u64| self.ids().contains(id))
    }

    pub closed spec fn wf(&self) -> bool {
        self.ids().no_duplicates()
    }

    /// The native window kept under `id`, where `id` is live.
    pub closed spec fn handle_of(&self, id: u64) -> H {
        let k = choose|i: int| 0 <= i < self.ids().len() && self.ids()[i] == id;
        self.entries@[k].1
    }

    proof fn lemma_handle_at(&self, j: int)
        requires
            self.wf(),
            0 <= j < self.entries@.len(),
        ensures
            self.handle_of(self.entries@[j].0) == self.entries@[j].1,
    {
        let id = self.entries@[j].0;
        assert(self.ids()[j] == id);
        let k = choose|i: int| 0 <= i < self.ids().len() && self.ids()[i] == id;
        assert(k == j);
    }

    pub fn new() -> (r: WindowRegistry<H>)
        ensures
            r.wf(),
            r.live() == Set::<u64>::empty(),
    {
        let r = WindowRegistry { entries: Vec::new() };
        assert(r.live() =~= Set::<u64>::empty());
        r
    }

    fn find(&self, id: u64) -> (r: Option<usize>)
        ensures
            r matches Some(i) ==> i < self.entries@.len() && self.entries@[i as int].0 == id,
            r is None ==> !self.ids().contains(id),
    {
        let mut i: usize = 0;
        while i < self.entries.len()
            invariant
                i <= self.entries@.len(),
                forall|j: int| 0 <= j < i ==> self.entries@[j].0 != id,
            decreases self.entries@.len() - i,
        {
            if self.entries[i].0 == id {
                return Some(i);
            }
            i = i + 1;
        }
        assert(!self.ids().contains(id)) by {
            if self.ids().contains(id) {
                let k = choose|k: int| 0 <= k < self.ids().len() && self.ids()[k] == id;
                assert(self.entries@[k].0 == id);
            }
        }
        None
    }

    pub fn contains(&self, id: u64) -> (r: bool)
        ensures
            r == self.live().contains(id),
    {
        let f = self.find(id);
        proof {
            if let Some(i) = f {
                assert(self.ids()[i as int] == id);
            }
        }
        f.is_some()
    }

    /// The native window of `id`, if it is alive.
    pub fn get_window(&self, id: u64) -> (r: Option<&H>)
        requires
            self.wf(),
        ensures
            r is Some == self.live().contains(id),
            r matches Some(h) ==> *h == self.handle_of(id),
    {
        match self.find(id) {
            Some(i) => {
                assert(self.ids()[i as int] == id);
                proof {
                    self.lemma_handle_at(i as int);
                }
                Some(&self.entries[i].1)
            },
            None => None,
        }
    }

    /// Keeps `handle` as the native window of `id`. Where `id` already has one,
    /// nothing changes and `handle` is handed back.
    pub fn register(&mut self, id: u64, handle: H) -> (r: Option<H>)
        requires
            old(self).wf(),
        ensures
            final(self).wf(),
            old(self).live().contains(id) ==> r is Some && *final(self) == *old(self),
            !old(self).live().contains(id) ==> r is None && final(self).live() == old(self).live().insert(id)
                && final(self).handle_of(id) == handle,
            forall|x: u64|
                x != id && #[trigger] old(self).live().contains(x) ==> final(self).handle_of(x)
                    == old(self).handle_of(x),
    {
        if self.contains(id) {
            return Some(handle);
        }
        let ghost before = self.ids();
        self.entries.push((id, handle));
        assert(self.ids() =~= before.push(id));
        assert forall|x: u64| self.live().contains(x) <==> old(self).live().insert(id).contains(x) by {
            if self.ids().contains(x) && x != id {
                let k = choose|k: int| 0 <= k < self.ids().len() && self.ids()[k] == x;
                assert(k < before.len());
                assert(before[k] == x);
            }
            if before.contains(x) {
                let k = choose|k: int| 0 <= k < before.len() && before[k] == x;
                assert(self.ids()[k] == x);
            }
            if x == id {
                assert(self.ids()[before.len() as int] == x);
            }
        }
        assert(self.live() =~= old(self).live().insert(id));
        proof {
            self.lemma_handle_at(before.len() as int);
            assert forall|x: u64|
                x != id && #[trigger] old(self).live().contains(x) implies self.handle_of(x)
                    == old(self).handle_of(x) by {
                let j = choose|j: int| 0 <= j < before.len() && before[j] == x;
                old(self).lemma_handle_at(j);
                assert(self.entries@[j] == old(self).entries@[j]);
                self.lemma_handle_at(j);
            }
        }
        None
    }

    /// Takes out the native window of `id`; nothing happens where there is none.
    pub fn remove_window(&mut self, id: u64) -> (r: Option<H>)
        requires
            old(self).wf(),
        ensures
            final(self).wf(),
            r is Some == old(self).live().contains(id),
            r matches Some(h) ==> h == old(self).handle_of(id),
            final(self).live() == old(self).live().remove(id),
            forall|x: u64|
                #[trigger] final(self).live().contains(x) ==> final(self).handle_of(x)
                    == old(self).handle_of(x),
    {
        match self.find(id) {
            Some(i) => {
                let ghost before = self.ids();
                assert(before[i as int] == id);
                proof {
                    self.lemma_handle_at(i as int);
                }
                let e = self.entries.remove(i);
                assert(self.ids() =~= before.remove(i as int));
                assert forall|x: u64| self.live().contains(x) <==> old(self).live().remove(id).contains(x) by {
                    if self.ids().contains(x) {
                        let k = choose|k: int| 0 <= k < self.ids().len() && self.ids()[k] == x;
                        if k < i {
                            assert(before[k] == x);
                        } else {
                            assert(before[k + 1] == x);
                        }
                        assert(x != id);
                    }
                    if x != id && before.contains(x) {
                        let k = choose|k: int| 0 <= k < before.len() && before[k] == x;
                        assert(k != i);
                        if k < i {
                            assert(self.ids()[k] == x);
                        } else {
                            assert(self.ids()[k - 1] == x);
                        }
                    }
                }
                assert(self.live() =~= old(self).live().remove(id));
                assert forall|x: u64| #[trigger] self.live().contains(x) implies self.handle_of(x)
                    == old(self).handle_of(x) by {
                    let k = choose|k: int| 0 <= k < self.ids().len() && self.ids()[k] == x;
                    self.lemma_handle_at(k);
                    if k < i {
                        assert(self.entries@[k] == old(self).entries@[k]);
                        old(self).lemma_handle_at(k);
                    } else {
                        assert(self.entries@[k] == old(self).entries@[k + 1]);
                        old(self).lemma_handle_at(k + 1);
                    }
                }
                Some(e.1)
            },
            None => {
                assert(self.live() =~= old(self).live().remove(id));
                None
            },
        }
    }
}

} // verus!
