//! Stable window identifiers for editor windows.
//!
//! Each project path that opens an editor window is assigned a small
//! numeric id, reused for as long as the registry lives, so the window for
//! a project can be found again. Ids are handed out from a counter and a
//! path is never registered twice.

use vstd::prelude::*;

verus! {

/// The id registered for `path`, if any: the first entry whose path
/// matches.
pub open spec fn lookup(entries: Seq<(String, u32)>, path: Seq<char>) -> Option<u32>
    decreases entries.len(),
{
    if entries.len() == 0 {
        None
    } else if entries.first().0@ == path {
        Some(entries.first().1)
    } else {
        lookup(entries.drop_first(), path)
    }
}

/// No path is registered twice.
pub open spec fn paths_unique(entries: Seq<(String, u32)>) -> bool {
    forall|i: int, j: int|
        0 <= i < j < entries.len() ==> (#[trigger] entries[i]).0@ != (#[trigger] entries[j]).0@
}

/// Narrowing a lookup to a scanned prefix: if the first `i` entries do not
/// match, the lookup is decided by the rest.
proof fn lemma_lookup_skip(entries: Seq<(String, u32)>, path: Seq<char>, i: int)
    requires
        0 <= i <= entries.len(),
        forall|k: int| 0 <= k < i ==> (#[trigger] entries[k]).0@ != path,
    ensures
        lookup(entries, path) == lookup(entries.skip(i), path),
    decreases i,
{
    if i > 0 {
        lemma_lookup_skip(entries, path, i - 1);
        let tail = entries.skip(i - 1);
        assert(tail.first() == entries[i - 1]);
        assert(tail.first().0@ != path);
        assert(lookup(tail, path) == lookup(tail.drop_first(), path));
        assert(tail.drop_first() =~= entries.skip(i));
    } else {
        assert(entries.skip(0) =~= entries);
    }
}

/// Ids for editor windows, one per open project path.
pub struct EditorWindowIds {
    pub ids: Vec<(String, u32)>,
    pub counter: u32,
}

impl EditorWindowIds {
    /// An empty registry; ids start at zero.
    pub fn new() -> (r: EditorWindowIds)
        ensures
            r.ids@.len() == 0,
            r.counter == 0,
            paths_unique(r.ids@),
    {
        EditorWindowIds { ids: Vec::new(), counter: 0 }
    }

    /// The id registered for `path`, assigning and recording the next
    /// counter value if the path is new.
    pub fn id_for_path(&mut self, path: &String) -> (id: u32)
        requires
            paths_unique(old(self).ids@),
            old(self).counter < u32::MAX,
        ensures
            paths_unique(final(self).ids@),
            lookup(final(self).ids@, path@) == Some(id),
            match lookup(old(self).ids@, path@) {
                Some(known) => {
                    &&& id == known
                    &&& final(self).ids@ == old(self).ids@
                    &&& final(self).counter == old(self).counter
                },
                None => {
                    &&& id == old(self).counter
                    &&& final(self).ids@ =~= old(self).ids@.push((*path, id))
                    &&& final(self).counter == old(self).counter + 1
                },
            },
    {
        let n = self.ids.len();
        let mut i: usize = 0;
        while i < n
            invariant
                i <= n,
                n == self.ids@.len(),
                self.ids@ == old(self).ids@,
                self.counter == old(self).counter,
                paths_unique(self.ids@),
                forall|k: int| 0 <= k < i ==> (#[trigger] self.ids@[k]).0@ != path@,
            decreases n - i,
        {
            if self.ids[i].0 == *path {
                proof {
                    lemma_lookup_skip(self.ids@, path@, i as int);
                    assert(self.ids@.skip(i as int).first() == self.ids@[i as int]);
                }
                return self.ids[i].1;
            }
            i = i + 1;
        }
        proof {
            lemma_lookup_skip(self.ids@, path@, n as int);
            assert(self.ids@.skip(n as int) =~= Seq::<(String, u32)>::empty());
        }
        let id = self.counter;
        self.counter = self.counter + 1;
        self.ids.push((path.clone(), id));
        proof {
            let entries = self.ids@;
            lemma_lookup_skip(entries, path@, (entries.len() - 1) as int);
            assert(entries.skip(entries.len() - 1).first() == entries[entries.len() - 1]);
        }
        id
    }
}

/// Ids for screenshot-editor windows, one per open image path.
pub struct ScreenshotEditorWindowIds {
    pub ids: Vec<(String, u32)>,
    pub counter: u32,
}

impl ScreenshotEditorWindowIds {
    /// An empty registry; ids start at zero.
    pub fn new() -> (r: ScreenshotEditorWindowIds)
        ensures
            r.ids@.len() == 0,
            r.counter == 0,
            paths_unique(r.ids@),
    {
        ScreenshotEditorWindowIds { ids: Vec::new(), counter: 0 }
    }

    /// The id registered for `path`, assigning and recording the next
    /// counter value if the path is new.
    pub fn id_for_path(&mut self, path: &String) -> (id: u32)
        requires
            paths_unique(old(self).ids@),
            old(self).counter < u32::MAX,
        ensures
            paths_unique(final(self).ids@),
            lookup(final(self).ids@, path@) == Some(id),
            match lookup(old(self).ids@, path@) {
                Some(known) => {
                    &&& id == known
                    &&& final(self).ids@ == old(self).ids@
                    &&& final(self).counter == old(self).counter
                },
                None => {
                    &&& id == old(self).counter
                    &&& final(self).ids@ =~= old(self).ids@.push((*path, id))
                    &&& final(self).counter == old(self).counter + 1
                },
            },
    {
        let n = self.ids.len();
        let mut i: usize = 0;
        while i < n
            invariant
                i <= n,
                n == self.ids@.len(),
                self.ids@ == old(self).ids@,
                self.counter == old(self).counter,
                paths_unique(self.ids@),
                forall|k: int| 0 <= k < i ==> (#[trigger] self.ids@[k]).0@ != path@,
            decreases n - i,
        {
            if self.ids[i].0 == *path {
                proof {
                    lemma_lookup_skip(self.ids@, path@, i as int);
                    assert(self.ids@.skip(i as int).first() == self.ids@[i as int]);
                }
                return self.ids[i].1;
            }
            i = i + 1;
        }
        proof {
            lemma_lookup_skip(self.ids@, path@, n as int);
            assert(self.ids@.skip(n as int) =~= Seq::<(String, u32)>::empty());
        }
        let id = self.counter;
        self.counter = self.counter + 1;
        self.ids.push((path.clone(), id));
        proof {
            let entries = self.ids@;
            lemma_lookup_skip(entries, path@, (entries.len() - 1) as int);
            assert(entries.skip(entries.len() - 1).first() == entries[entries.len() - 1]);
        }
        id
    }
}

} // verus!
