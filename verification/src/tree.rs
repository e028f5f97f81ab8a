use vstd::prelude::*;

use crate::paths::{path_under, spec_under};

verus! {

/// One filesystem entry of the model.  A file carries its text (the walker
/// reads configuration files out of the model), a symlink carries the path it
/// points at; anything that is neither file, directory nor symlink — a device
/// node, say — is `Other`.
#[derive(Clone, Debug, PartialEq, Eq)]
pub enum Entry {
    Dir,
    File(String),
    Symlink(String),
    Other,
}

/// The mathematical value of an entry.
pub enum EntryV {
    Dir,
    File(Seq<char>),
    Symlink(Seq<char>),
    Other,
}

impl View for Entry {
    type V = EntryV;

    open spec fn view(&self) -> EntryV {
        match self {
            Entry::Dir => EntryV::Dir,
            Entry::File(text) => EntryV::File(text@),
            Entry::Symlink(dest) => EntryV::Symlink(dest@),
            Entry::Other => EntryV::Other,
        }
    }
}

impl DeepView for Entry {
    type V = EntryV;

    open spec fn deep_view(&self) -> EntryV {
        self.view()
    }
}

impl Entry {
    pub fn duplicate(&self) -> (r: Entry)
        ensures
            r@ == self@,
    {
        match self {
            Entry::Dir => Entry::Dir,
            Entry::File(text) => Entry::File(text.clone()),
            Entry::Symlink(dest) => Entry::Symlink(dest.clone()),
            Entry::Other => Entry::Other,
        }
    }
}

/// The model of a filesystem: entries keyed by absolute path, looked up by
/// the first occurrence of a path.
pub type TreeV = Seq<(Seq<char>, EntryV)>;

/// An explicit filesystem model: the engine computes every decision and every
/// effect over a value of this type.
#[derive(Clone, Debug)]
pub struct Tree {
    pub entries: Vec<(String, Entry)>,
}

impl View for Tree {
    type V = TreeV;

    open spec fn view(&self) -> TreeV {
        self.entries.deep_view()
    }
}

/// The entry at path `p`, if any.
pub open spec fn spec_lookup(t: TreeV, p: Seq<char>) -> Option<EntryV>
    decreases t.len(),
{
    if t.len() == 0 {
        None
    } else if t[0].0 == p {
        Some(t[0].1)
    } else {
        spec_lookup(t.drop_first(), p)
    }
}

/// The tree after removing the entry at `p` — the way a symlink or a regular
/// file is removed.
pub open spec fn spec_remove(t: TreeV, p: Seq<char>) -> TreeV
    decreases t.len(),
{
    if t.len() == 0 {
        t
    } else {
        let rest = spec_remove(t.drop_first(), p);
        if t[0].0 == p {
            rest
        } else {
            seq![t[0]] + rest
        }
    }
}

/// The tree after removing the entry at `p` together with everything below
/// it — the way a directory is removed.
pub open spec fn spec_remove_subtree(t: TreeV, p: Seq<char>) -> TreeV
    decreases t.len(),
{
    if t.len() == 0 {
        t
    } else {
        let rest = spec_remove_subtree(t.drop_first(), p);
        if t[0].0 == p || spec_under(p, t[0].0) {
            rest
        } else {
            seq![t[0]] + rest
        }
    }
}

/// A lookup that skips a prefix without a match looks into the rest.
proof fn lemma_lookup_skip(t: TreeV, p: Seq<char>, i: int)
    requires
        0 <= i <= t.len(),
        forall|j: int| 0 <= j < i ==> (#[trigger] t[j]).0 != p,
    ensures
        spec_lookup(t, p) == spec_lookup(t.skip(i), p),
    decreases i,
{
    if i > 0 {
        assert(t.drop_first() =~= t.skip(1));
        lemma_lookup_skip(t.skip(1), p, i - 1);
        assert(t.skip(1).skip(i - 1) =~= t.skip(i));
    } else {
        assert(t.skip(0) =~= t);
    }
}

/// What a lookup finds in a tree with one entry appended: whatever an
/// earlier entry already bound, else the appended entry when the path fits.
pub proof fn lemma_lookup_push(t: TreeV, p: Seq<char>, e: EntryV, q: Seq<char>)
    ensures
        spec_lookup(t.push((p, e)), q) == (if spec_lookup(t, q) is Some {
            spec_lookup(t, q)
        } else if q == p {
            Some(e)
        } else {
            None::<EntryV>
        }),
    decreases t.len(),
{
    if t.len() == 0 {
        assert(t.push((p, e)).drop_first() =~= t);
    } else {
        lemma_lookup_push(t.drop_first(), p, e, q);
        assert(t.push((p, e)).drop_first() =~= t.drop_first().push((p, e)));
    }
}

/// After removing a path no entry is bound at it, and every other path keeps
/// its binding.
pub proof fn lemma_lookup_remove(t: TreeV, p: Seq<char>, q: Seq<char>)
    ensures
        spec_lookup(spec_remove(t, p), q) == (if q == p {
            None::<EntryV>
        } else {
            spec_lookup(t, q)
        }),
    decreases t.len(),
{
    if t.len() > 0 {
        lemma_lookup_remove(t.drop_first(), p, q);
        if t[0].0 != p {
            assert((seq![t[0]] + spec_remove(t.drop_first(), p)).drop_first() =~= spec_remove(
                t.drop_first(),
                p,
            ));
        }
    }
}

/// After removing a subtree no entry is bound at its root or below it, and
/// every path outside keeps its binding.
pub proof fn lemma_lookup_remove_subtree(t: TreeV, p: Seq<char>, q: Seq<char>)
    ensures
        spec_lookup(spec_remove_subtree(t, p), q) == (if q == p || spec_under(p, q) {
            None::<EntryV>
        } else {
            spec_lookup(t, q)
        }),
    decreases t.len(),
{
    if t.len() > 0 {
        lemma_lookup_remove_subtree(t.drop_first(), p, q);
        if !(t[0].0 == p || spec_under(p, t[0].0)) {
            assert((seq![t[0]] + spec_remove_subtree(t.drop_first(), p)).drop_first()
                =~= spec_remove_subtree(t.drop_first(), p));
        }
    }
}

/// Removing a pushed entry from a tree that never bound its path restores
/// the tree.
pub proof fn lemma_remove_push(t: TreeV, p: Seq<char>, e: EntryV)
    requires
        spec_lookup(t, p) is None,
    ensures
        spec_remove(t.push((p, e)), p) == t,
    decreases t.len(),
{
    if t.len() == 0 {
        assert(spec_remove(t, p) =~= t);
        assert(t.push((p, e)).drop_first() =~= t);
    } else {
        lemma_remove_push(t.drop_first(), p, e);
        assert(t.push((p, e)).drop_first() =~= t.drop_first().push((p, e)));
        assert(seq![t[0]] + t.drop_first() =~= t);
    }
}

impl Tree {
    pub fn new() -> (r: Tree)
        ensures
            r@ == Seq::<(Seq<char>, EntryV)>::empty(),
    {
        let t = Tree { entries: Vec::new() };
        proof {
            assert(t@ =~= Seq::<(Seq<char>, EntryV)>::empty());
        }
        t
    }

    pub fn len(&self) -> (r: usize)
        ensures
            r == self@.len(),
    {
        self.entries.len()
    }

    /// Appends an entry.  The engine only appends at paths that have no entry
    /// yet, so appending is how a file comes into being.
    pub fn put(&mut self, p: String, e: Entry)
        ensures
            final(self)@ == old(self)@.push((p@, e@)),
    {
        let ghost pv = p@;
        let ghost ev = e@;
        self.entries.push((p, e));
        proof {
            assert(self@ =~= old(self)@.push((pv, ev)));
        }
    }

    /// The entry at path `p`, if any.
    pub fn lookup_entry(&self, p: &String) -> (r: Option<&Entry>)
        ensures
            match r {
                Some(e) => spec_lookup(self@, p@) == Some(e@),
                None => spec_lookup(self@, p@) is None,
            },
    {
        let n = self.entries.len();
        let mut i: usize = 0;
        while i < n
            invariant
                n == self.entries.len(),
                i <= n,
                forall|j: int| 0 <= j < i ==> (#[trigger] self@[j]).0 != p@,
            decreases n - i,
        {
            if self.entries[i].0 == *p {
                proof {
                    lemma_lookup_skip(self@, p@, i as int);
                }
                return Some(&self.entries[i].1);
            }
            i += 1;
        }
        proof {
            lemma_lookup_skip(self@, p@, n as int);
            assert(self@.skip(n as int) =~= Seq::<(Seq<char>, EntryV)>::empty());
        }
        None
    }

    /// Removes the entry at `p`, the way a file or symlink is unlinked.
    /// Nothing happens when no entry is there.
    pub fn remove_exact(&mut self, p: &String)
        ensures
            final(self)@ == spec_remove(old(self)@, p@),
    {
        let n = self.entries.len();
        let mut out: Vec<(String, Entry)> = Vec::new();
        proof {
            assert(out.deep_view() =~= Seq::<(Seq<char>, EntryV)>::empty());
            assert(self@.skip(0) =~= self@);
            assert(out.deep_view() + spec_remove(self@, p@) =~= spec_remove(self@, p@));
        }
        let mut i: usize = 0;
        while i < n
            invariant
                n == self.entries.len(),
                self@ == old(self)@,
                i <= n,
                spec_remove(self@, p@) == out.deep_view() + spec_remove(self@.skip(i as int), p@),
            decreases n - i,
        {
            proof {
                assert(self@.skip(i as int).drop_first() =~= self@.skip(i + 1));
            }
            if !(self.entries[i].0 == *p) {
                let ghost before = out.deep_view();
                out.push((self.entries[i].0.clone(), self.entries[i].1.duplicate()));
                proof {
                    assert(out.deep_view() =~= before.push(self@[i as int]));
                    assert(before.push(self@[i as int]) + spec_remove(self@.skip(i + 1), p@)
                        =~= before + (seq![self@[i as int]] + spec_remove(self@.skip(i + 1), p@)));
                }
            }
            i += 1;
        }
        proof {
            assert(self@.skip(n as int) =~= Seq::<(Seq<char>, EntryV)>::empty());
            assert(spec_remove(self@, p@) =~= out.deep_view());
        }
        self.entries = out;
    }

    /// Removes the entry at `p` and every entry below it, the way a directory
    /// is removed recursively.
    pub fn remove_subtree(&mut self, p: &String)
        ensures
            final(self)@ == spec_remove_subtree(old(self)@, p@),
    {
        let n = self.entries.len();
        let mut out: Vec<(String, Entry)> = Vec::new();
        proof {
            assert(out.deep_view() =~= Seq::<(Seq<char>, EntryV)>::empty());
            assert(self@.skip(0) =~= self@);
            assert(out.deep_view() + spec_remove_subtree(self@, p@) =~= spec_remove_subtree(
                self@,
                p@,
            ));
        }
        let mut i: usize = 0;
        while i < n
            invariant
                n == self.entries.len(),
                self@ == old(self)@,
                i <= n,
                spec_remove_subtree(self@, p@) == out.deep_view() + spec_remove_subtree(
                    self@.skip(i as int),
                    p@,
                ),
            decreases n - i,
        {
            proof {
                assert(self@.skip(i as int).drop_first() =~= self@.skip(i + 1));
            }
            let hit = self.entries[i].0 == *p || path_under(p.as_str(), self.entries[i].0.as_str());
            if !hit {
                let ghost before = out.deep_view();
                out.push((self.entries[i].0.clone(), self.entries[i].1.duplicate()));
                proof {
                    assert(out.deep_view() =~= before.push(self@[i as int]));
                    assert(before.push(self@[i as int]) + spec_remove_subtree(
                        self@.skip(i + 1),
                        p@,
                    ) =~= before + (seq![self@[i as int]] + spec_remove_subtree(
                        self@.skip(i + 1),
                        p@,
                    )));
                }
            }
            i += 1;
        }
        proof {
            assert(self@.skip(n as int) =~= Seq::<(Seq<char>, EntryV)>::empty());
            assert(spec_remove_subtree(self@, p@) =~= out.deep_view());
        }
        self.entries = out;
    }
}

} // verus!
