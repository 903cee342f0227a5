//! In-memory model of a filesystem tree and the deep copy the backup
//! and install steps are built on.

use vstd::prelude::*;

verus! {

/// A named entry inside a directory node.
#[derive(Debug, PartialEq, Eq)]
pub struct DirEntry {
    pub name: String,
    pub node: FsTree,
}

/// A filesystem tree: a file with its byte content, or a directory with
/// an ordered list of named entries.
#[derive(Debug, PartialEq, Eq)]
pub enum FsTree {
    File { data: Vec<u8> },
    Dir { entries: Vec<DirEntry> },
}

/// Mathematical shape of a filesystem tree: file contents as byte
/// sequences, directories as ordered sequences of (name, subtree).
pub enum TreeModel {
    File { data: Seq<u8> },
    Dir { entries: Seq<(Seq<char>, TreeModel)> },
}

impl FsTree {
    /// The mathematical shape of this tree.
    pub open spec fn model(self) -> TreeModel
        decreases self,
    {
        match self {
            FsTree::File { data } => TreeModel::File { data: data@ },
            FsTree::Dir { entries } => TreeModel::Dir { entries: entries_model(entries@) },
        }
    }
}

/// The shapes of a sequence of directory entries, in order.
pub open spec fn entries_model(s: Seq<DirEntry>) -> Seq<(Seq<char>, TreeModel)>
    decreases s,
{
    if s.len() == 0 {
        Seq::empty()
    } else {
        entries_model(s.drop_last()).push((s.last().name@, s.last().node.model()))
    }
}

/// `entries_model` is the pointwise image of the entry sequence.
pub proof fn lemma_entries_model_index(s: Seq<DirEntry>)
    ensures
        entries_model(s).len() == s.len(),
        forall|i: int|
            0 <= i < s.len() ==> #[trigger] entries_model(s)[i] == (
            s[i].name@,
            s[i].node.model(),
            ),
    decreases s.len(),
{
    if s.len() > 0 {
        lemma_entries_model_index(s.drop_last());
    }
}

impl FsTree {
    /// Structural deep copy: the result has exactly the shape of the
    /// source, byte for byte and entry for entry at every depth.
    #[verifier::loop_isolation(false)]
    pub fn deep_copy(&self) -> (r: FsTree)
        ensures
            r.model() == self.model(),
        decreases *self,
    {
        match self {
            FsTree::File { data } => {
                let mut d: Vec<u8> = Vec::new();
                let mut i: usize = 0;
                while i < data.len()
                    invariant
                        i <= data.len(),
                        d@ == data@.subrange(0, i as int),
                    decreases data.len() - i,
                {
                    d.push(data[i]);
                    proof {
                        assert(d@ =~= data@.subrange(0, i + 1 as int));
                    }
                    i = i + 1;
                }
                proof {
                    assert(d@ =~= data@);
                }
                FsTree::File { data: d }
            },
            FsTree::Dir { entries } => {
                let mut v: Vec<DirEntry> = Vec::new();
                let mut i: usize = 0;
                while i < entries.len()
                    invariant
                        i <= entries.len(),
                        v@.len() == i as int,
                        forall|j: int|
                            0 <= j < i ==> (#[trigger] v@[j]).name@ == entries@[j].name@
                                && v@[j].node.model() == entries@[j].node.model(),
                    decreases entries.len() - i,
                {
                    let e = &entries[i];
                    proof {
                        assert(decreases_to!(*self => self->Dir_entries));
                        assert(self->Dir_entries == *entries);
                        assert(decreases_to!(*entries => entries@));
                        assert(decreases_to!(entries@ => entries@[i as int]));
                        assert(decreases_to!(entries@[i as int] => entries@[i as int].node));
                        assert(decreases_to!(*self => entries@[i as int].node));
                    }
                    let copied = DirEntry { name: e.name.clone(), node: e.node.deep_copy() };
                    v.push(copied);
                    i = i + 1;
                }
                proof {
                    lemma_entries_model_index(v@);
                    lemma_entries_model_index(entries@);
                    assert(entries_model(v@) =~~= entries_model(entries@));
                }
                FsTree::Dir { entries: v }
            },
        }
    }
}

} // verus!
