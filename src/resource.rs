use vstd::prelude::*;

verus! {

/// A table of resources that operators of one worker can reach, keyed by a
/// string: the name of the resource's type for typed resources, or a key
/// chosen by the user. Each key appears at most once.
pub struct ResourceTable<R> {
    entries: Vec<(String, R)>,
}

/// The keys of a table's entries are pairwise distinct.
pub open spec fn keys_unique<R>(s: Seq<(Seq<char>, R)>) -> bool {
    forall|i: int, j: int| 0 <= i < j < s.len() ==> s[i].0 != s[j].0
}

impl<R> View for ResourceTable<R> {
    type V = Seq<(Seq<char>, R)>;

    closed spec fn view(&self) -> Seq<(Seq<char>, R)> {
        self.entries@.map_values(|e: (String, R)| (e.0@, e.1))
    }
}

impl<R> ResourceTable<R> {
    pub open spec fn wf(&self) -> bool {
        keys_unique(self@)
    }

    /// An empty table.
    pub fn new() -> (r: Self)
        ensures
            r@ == Seq::<(Seq<char>, R)>::empty(),
            r.wf(),
    {
        let r = ResourceTable { entries: Vec::new() };
        assert(r@ =~= Seq::<(Seq<char>, R)>::empty());
        r
    }

    pub fn is_empty(&self) -> (r: bool)
        ensures
            r == (self@.len() == 0),
    {
        self.entries.len() == 0
    }

    pub fn len(&self) -> (r: usize)
        ensures
            r == self@.len(),
    {
        self.entries.len()
    }

    /// Stores `resource` under `key`, replacing what the key held before.
    pub fn insert(&mut self, key: String, resource: R)
        requires
            old(self).wf(),
        ensures
            final(self).wf(),
            forall|j: int|
                0 <= j < old(self)@.len() && old(self)@[j].0 == key@ ==> final(self)@ == old(self)@.update(j, (key@, resource)),
            (forall|j: int| 0 <= j < old(self)@.len() ==> old(self)@[j].0 != key@) ==> final(self)@ == old(self)@.push((key@, resource)),
    {
        let ghost before = self@;
        let n = self.entries.len();
        let mut i: usize = 0;
        while i < n && self.entries[i].0 != key
            invariant
                n == self.entries.len(),
                self@ == before,
                i <= n,
                forall|j: int| 0 <= j < i ==> before[j].0 != key@,
            decreases n - i,
        {
            i += 1;
        }
        if i < n {
            assert(before[i as int].0 == key@);
            assert forall|j: int|
                0 <= j < before.len() && before[j].0 == key@ implies j == i as int by {
                if j != i as int {
                    assert(keys_unique(before));
                }
            }
            self.entries.set(i, (key, resource));
            assert(self@ =~= before.update(i as int, (key@, resource)));
            assert forall|a: int, b: int| 0 <= a < b < self@.len() implies self@[a].0
                != self@[b].0 by {
                assert(self@[a].0 == before[a].0);
                assert(self@[b].0 == before[b].0);
            }
        } else {
            self.entries.push((key, resource));
            assert(self@ =~= before.push((key@, resource)));
        }
    }
}

/// The tables a worker handed to the ambient slots for the length of one
/// step: which of the two it moved, so that the same ones are moved back.
pub struct WorkerContext {
    pub resource: bool,
    pub keyed_resources: bool,
}

impl WorkerContext {
    /// Moves each non-empty table of the worker into its ambient slot, which
    /// must be empty, and leaves the worker's table empty in its place.
    pub fn new<R>(
        res: &mut ResourceTable<R>,
        key_res: &mut ResourceTable<R>,
        slot: &mut ResourceTable<R>,
        key_slot: &mut ResourceTable<R>,
    ) -> (r: WorkerContext)
        requires
            old(res)@.len() > 0 ==> old(slot)@.len() == 0,
            old(key_res)@.len() > 0 ==> old(key_slot)@.len() == 0,
        ensures
            r.resource == (old(res)@.len() > 0),
            r.keyed_resources == (old(key_res)@.len() > 0),
            r.resource ==> final(slot)@ == old(res)@ && final(res)@.len() == 0,
            !r.resource ==> *final(slot) == *old(slot) && *final(res) == *old(res),
            r.keyed_resources ==> final(key_slot)@ == old(key_res)@ && final(key_res)@.len() == 0,
            !r.keyed_resources ==> *final(key_slot) == *old(key_slot) && *final(key_res) == *old(key_res),
    {
        let resource = if !res.is_empty() {
            std::mem::swap(res, slot);
            true
        } else {
            false
        };
        let keyed_resources = if !key_res.is_empty() {
            std::mem::swap(key_res, key_slot);
            true
        } else {
            false
        };
        WorkerContext { resource, keyed_resources }
    }

    /// Takes back from the ambient slots the tables this context moved there,
    /// with whatever the step left in them, and leaves those slots empty.
    pub fn exit<R>(
        self,
        res: &mut ResourceTable<R>,
        key_res: &mut ResourceTable<R>,
        slot: &mut ResourceTable<R>,
        key_slot: &mut ResourceTable<R>,
    )
        ensures
            self.resource ==> final(res)@ == old(slot)@ && final(slot)@.len() == 0,
            !self.resource ==> *final(slot) == *old(slot) && *final(res) == *old(res),
            self.keyed_resources ==> final(key_res)@ == old(key_slot)@ && final(key_slot)@.len()
                == 0,
            !self.keyed_resources ==> *final(key_slot) == *old(key_slot) && *final(key_res)
                == *old(key_res),
    {
        if self.resource {
            let mut empty = ResourceTable::new();
            std::mem::swap(slot, &mut empty);
            *res = empty;
        }
        if self.keyed_resources {
            let mut empty = ResourceTable::new();
            std::mem::swap(key_slot, &mut empty);
            *key_res = empty;
        }
    }
}

} // verus!
