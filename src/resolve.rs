//! The status resolver: one selectable item per change record that is not
//! ignored, each with a display path and the record's staged state.

use vstd::prelude::*;

use crate::status::StatusFlags;

verus! {

/// The two file paths of one side of a difference (HEAD to index, or index
/// to working directory). Either may be missing, e.g. the new path of a
/// deletion.
#[derive(Clone, Debug)]
pub struct DiffPaths {
    pub old_path: Option<String>,
    pub new_path: Option<String>,
}

/// One raw change record of the repository status.
#[derive(Clone, Debug)]
pub struct StatusRecord {
    pub flags: StatusFlags,
    pub head_to_index: Option<DiffPaths>,
    pub index_to_workdir: Option<DiffPaths>,
}

/// One selectable entry: the path to show, whether its change is already in
/// the index, and whether the user wants it staged.
#[derive(Clone, Debug)]
pub struct PathItems {
    pub path: String,
    pub is_staged: bool,
    pub is_selected: bool,
}

/// The path shown when a record names no usable path.
pub open spec fn unknown_path() -> Seq<char> {
    "<unknown>"@
}

/// A candidate path that is present and not empty.
pub open spec fn usable(p: Option<String>) -> bool {
    p is Some && p->0@.len() > 0
}

pub open spec fn new_path_of(d: Option<DiffPaths>) -> Option<String> {
    match d {
        Some(d) => d.new_path,
        None => None,
    }
}

pub open spec fn old_path_of(d: Option<DiffPaths>) -> Option<String> {
    match d {
        Some(d) => d.old_path,
        None => None,
    }
}

/// The display path of a record, by strict priority: the new path of the
/// HEAD-to-index difference, then the new path of the index-to-workdir
/// difference, then that difference's old path, then the unknown marker.
pub open spec fn resolved_path(rec: StatusRecord) -> Seq<char> {
    if usable(new_path_of(rec.head_to_index)) {
        new_path_of(rec.head_to_index)->0@
    } else if usable(new_path_of(rec.index_to_workdir)) {
        new_path_of(rec.index_to_workdir)->0@
    } else if usable(old_path_of(rec.index_to_workdir)) {
        old_path_of(rec.index_to_workdir)->0@
    } else {
        unknown_path()
    }
}

/// The records that produce an item: all but those that are exactly ignored,
/// in their original order.
pub open spec fn kept(s: Seq<StatusRecord>) -> Seq<StatusRecord>
    decreases s.len(),
{
    if s.len() == 0 {
        Seq::empty()
    } else if s.last().flags.spec_is_ignored_only() {
        kept(s.drop_last())
    } else {
        kept(s.drop_last()).push(s.last())
    }
}

impl PathItems {
    /// This item is what the resolver makes of `rec`; its path is never
    /// empty.
    pub open spec fn resolved_from(self, rec: StatusRecord) -> bool {
        &&& self.path@ == resolved_path(rec)
        &&& self.path@.len() > 0
        &&& self.is_staged == rec.flags.spec_is_staged()
        &&& !self.is_selected
    }
}

fn usable_path(p: &Option<String>) -> (r: Option<String>)
    ensures
        r is Some <==> usable(*p),
        r is Some ==> r == *p,
{
    match p {
        Some(s) => {
            if s.as_str().is_empty() {
                None
            } else {
                Some(s.clone())
            }
        },
        None => None,
    }
}

fn new_path(d: &Option<DiffPaths>) -> (r: Option<String>)
    ensures
        r is Some <==> usable(new_path_of(*d)),
        r is Some ==> r == new_path_of(*d),
{
    match d {
        Some(d) => usable_path(&d.new_path),
        None => None,
    }
}

fn old_path(d: &Option<DiffPaths>) -> (r: Option<String>)
    ensures
        r is Some <==> usable(old_path_of(*d)),
        r is Some ==> r == old_path_of(*d),
{
    match d {
        Some(d) => usable_path(&d.old_path),
        None => None,
    }
}

/// The display path of a record; never empty.
pub fn resolve_path(rec: &StatusRecord) -> (r: String)
    ensures
        r@ == resolved_path(*rec),
        r@.len() > 0,
{
    proof {
        reveal_strlit("<unknown>");
    }
    if let Some(p) = new_path(&rec.head_to_index) {
        p
    } else if let Some(p) = new_path(&rec.index_to_workdir) {
        p
    } else if let Some(p) = old_path(&rec.index_to_workdir) {
        p
    } else {
        "<unknown>".to_owned()
    }
}

/// The item for one record, not yet selected.
pub fn resolve_item(rec: &StatusRecord) -> (r: PathItems)
    ensures
        r.resolved_from(*rec),
{
    PathItems { path: resolve_path(rec), is_staged: rec.flags.is_staged(), is_selected: false }
}

/// Nothing is kept exactly when every record is ignored.
pub proof fn lemma_kept_empty(s: Seq<StatusRecord>)
    ensures
        kept(s).len() == 0 <==> forall|i: int| 0 <= i < s.len() ==> #[trigger] s[i].flags.spec_is_ignored_only(),
    decreases s.len(),
{
    if s.len() > 0 {
        lemma_kept_empty(s.drop_last());
        if kept(s).len() == 0 {
            assert forall|i: int| 0 <= i < s.len() implies #[trigger] s[i].flags.spec_is_ignored_only() by {
                if i < s.len() - 1 {
                    assert(s[i] == s.drop_last()[i]);
                }
            }
        } else {
            if forall|i: int| 0 <= i < s.len() ==> #[trigger] s[i].flags.spec_is_ignored_only() {
                assert forall|i: int| 0 <= i < s.drop_last().len() implies #[trigger] s.drop_last()[i].flags.spec_is_ignored_only() by {
                    assert(s[i] == s.drop_last()[i]);
                }
                assert(s[s.len() - 1].flags.spec_is_ignored_only());
            }
        }
    }
}

/// Ignored records never reach the resolver's output: every kept record is
/// one of the input records, and none of them is exactly ignored.
pub proof fn lemma_ignored_never_kept(s: Seq<StatusRecord>)
    ensures
        forall|j: int| 0 <= j < kept(s).len() ==> !(#[trigger] kept(s)[j]).flags.spec_is_ignored_only(),
        forall|j: int| 0 <= j < kept(s).len() ==> s.contains(#[trigger] kept(s)[j]),
    decreases s.len(),
{
    if s.len() > 0 {
        lemma_ignored_never_kept(s.drop_last());
        let k = kept(s.drop_last());
        assert forall|j: int| 0 <= j < k.len() implies s.contains(#[trigger] k[j]) by {
            let i = choose|i: int| 0 <= i < s.drop_last().len() && s.drop_last()[i] == k[j];
            assert(s[i] == k[j]);
        }
        assert(s[s.len() - 1] == s.last());
    }
}

/// Resolves the change records into items, one per record that is not
/// exactly ignored, in record order. `None` is the clean working tree: no
/// record at all, or only ignored ones.
pub fn resolve_paths(records: &Vec<StatusRecord>) -> (r: Option<Vec<PathItems>>)
    ensures
        r is None <==> forall|i: int| 0 <= i < records@.len() ==> #[trigger] records@[i].flags.spec_is_ignored_only(),
        r is Some ==> {
            let items = r->0@;
            &&& items.len() == kept(records@).len()
            &&& forall|j: int| 0 <= j < items.len() ==> (#[trigger] items[j]).resolved_from(kept(records@)[j])
        },
{
    let mut items: Vec<PathItems> = Vec::new();
    let mut i: usize = 0;
    while i < records.len()
        invariant
            i <= records@.len(),
            items@.len() == kept(records@.take(i as int)).len(),
            forall|j: int| 0 <= j < items@.len() ==> (#[trigger] items@[j]).resolved_from(kept(records@.take(i as int))[j]),
        decreases records@.len() - i,
    {
        let rec = &records[i];
        assert(records@.take(i as int + 1).drop_last() =~= records@.take(i as int));
        assert(records@.take(i as int + 1).last() == records@[i as int]);
        if !rec.flags.is_ignored_only() {
            items.push(resolve_item(rec));
        }
        i = i + 1;
    }
    assert(records@.take(records@.len() as int) =~= records@);
    proof {
        lemma_kept_empty(records@);
    }
    if items.len() == 0 {
        None
    } else {
        Some(items)
    }
}

} // verus!
