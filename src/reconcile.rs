//! The reconciler: compares each item's staged state with the user's choice
//! and works out the index changes that make them agree.

use vstd::prelude::*;

use crate::resolve::PathItems;

verus! {

/// What happens to one item.
#[derive(Clone, Copy, Debug, PartialEq, Eq, Structural)]
pub enum Action {
    /// Add the path to the index.
    Stage,
    /// Reset the path's index entry to HEAD.
    Unstage,
    /// Already staged and still wanted: nothing to do.
    KeepStaged,
    /// Not staged and not wanted: nothing to do.
    KeepUnstaged,
}

/// The word a log line shows for an item.
#[derive(Clone, Copy, Debug, PartialEq, Eq, Structural)]
pub enum LogLabel {
    Staged,
    Unstaged,
}

impl Action {
    pub open spec fn spec_decide(is_staged: bool, is_selected: bool) -> Action {
        if is_staged && !is_selected {
            Action::Unstage
        } else if !is_staged && is_selected {
            Action::Stage
        } else if is_staged {
            Action::KeepStaged
        } else {
            Action::KeepUnstaged
        }
    }

    /// The decision table: unstage what is staged and not selected, stage
    /// what is selected and not staged, leave the rest.
    pub fn decide(is_staged: bool, is_selected: bool) -> (r: Action)
        ensures
            r == Action::spec_decide(is_staged, is_selected),
    {
        if is_staged && !is_selected {
            Action::Unstage
        } else if !is_staged && is_selected {
            Action::Stage
        } else if is_staged {
            Action::KeepStaged
        } else {
            Action::KeepUnstaged
        }
    }

    pub open spec fn spec_is_mutation(self) -> bool {
        self is Stage || self is Unstage
    }

    /// Whether the action changes the index.
    pub fn is_mutation(&self) -> (r: bool)
        ensures
            r == self.spec_is_mutation(),
    {
        match self {
            Action::Stage | Action::Unstage => true,
            _ => false,
        }
    }

    pub open spec fn spec_label(self) -> LogLabel {
        match self {
            Action::Stage | Action::KeepStaged => LogLabel::Staged,
            _ => LogLabel::Unstaged,
        }
    }

    /// The log label: "Staged" for an item that ends up in the index,
    /// "Unstaged" for one that does not.
    pub fn label(&self) -> (r: LogLabel)
        ensures
            r == self.spec_label(),
    {
        match self {
            Action::Stage | Action::KeepStaged => LogLabel::Staged,
            _ => LogLabel::Unstaged,
        }
    }
}

impl PathItems {
    pub open spec fn spec_action(self) -> Action {
        Action::spec_decide(self.is_staged, self.is_selected)
    }
}

/// The paths, in item order, of the items whose action is `a`.
pub open spec fn paths_with(s: Seq<PathItems>, a: Action) -> Seq<Seq<char>>
    decreases s.len(),
{
    if s.len() == 0 {
        Seq::empty()
    } else if s.last().spec_action() == a {
        paths_with(s.drop_last(), a).push(s.last().path@)
    } else {
        paths_with(s.drop_last(), a)
    }
}

pub open spec fn views(v: Seq<String>) -> Seq<Seq<char>> {
    v.map_values(|s: String| s@)
}

/// The outcome of reconciling: one action per item, in item order, and the
/// paths to add to the index and to reset, each in item order, so that each
/// can be applied as one batch.
#[derive(Clone, Debug)]
pub struct Reconciliation {
    pub actions: Vec<Action>,
    pub to_stage: Vec<String>,
    pub to_unstage: Vec<String>,
}

/// Decides, for every item, what to do to the index so that its staged
/// state matches its selection.
pub fn reconcile(items: &Vec<PathItems>) -> (r: Reconciliation)
    ensures
        r.actions@.len() == items@.len(),
        forall|i: int| 0 <= i < items@.len() ==> r.actions@[i] == (#[trigger] items@[i]).spec_action(),
        views(r.to_stage@) == paths_with(items@, Action::Stage),
        views(r.to_unstage@) == paths_with(items@, Action::Unstage),
{
    let mut actions: Vec<Action> = Vec::new();
    let mut to_stage: Vec<String> = Vec::new();
    let mut to_unstage: Vec<String> = Vec::new();
    let mut i: usize = 0;
    while i < items.len()
        invariant
            i <= items@.len(),
            actions@.len() == i,
            forall|k: int| 0 <= k < i ==> actions@[k] == (#[trigger] items@[k]).spec_action(),
            views(to_stage@) == paths_with(items@.take(i as int), Action::Stage),
            views(to_unstage@) == paths_with(items@.take(i as int), Action::Unstage),
        decreases items@.len() - i,
    {
        let item = &items[i];
        let a = Action::decide(item.is_staged, item.is_selected);
        assert(items@.take(i as int + 1).drop_last() =~= items@.take(i as int));
        assert(items@.take(i as int + 1).last() == items@[i as int]);
        match a {
            Action::Stage => {
                let ghost before = to_stage@;
                to_stage.push(item.path.clone());
                assert(views(to_stage@) =~= views(before).push(item.path@));
            },
            Action::Unstage => {
                let ghost before = to_unstage@;
                to_unstage.push(item.path.clone());
                assert(views(to_unstage@) =~= views(before).push(item.path@));
            },
            _ => {},
        }
        actions.push(a);
        i = i + 1;
    }
    assert(items@.take(items@.len() as int) =~= items@);
    Reconciliation { actions, to_stage, to_unstage }
}

/// Whether `i` is one of the chosen indices.
fn is_chosen(chosen: &Vec<usize>, i: usize) -> (r: bool)
    ensures
        r == chosen@.contains(i),
{
    let mut k: usize = 0;
    while k < chosen.len()
        invariant
            k <= chosen@.len(),
            forall|m: int| 0 <= m < k ==> chosen@[m] != i,
        decreases chosen@.len() - k,
    {
        if chosen[k] == i {
            return true;
        }
        k = k + 1;
    }
    false
}

/// Records the user's choice: an item is selected exactly when its index is
/// among `chosen`. Paths and staged states are kept.
pub fn mark_selected(items: &mut Vec<PathItems>, chosen: &Vec<usize>)
    ensures
        final(items)@.len() == old(items)@.len(),
        forall|i: int| 0 <= i < old(items)@.len() ==> {
            &&& (#[trigger] final(items)@[i]).path == old(items)@[i].path
            &&& final(items)@[i].is_staged == old(items)@[i].is_staged
            &&& final(items)@[i].is_selected == chosen@.contains(i as usize)
        },
{
    let mut i: usize = 0;
    while i < items.len()
        invariant
            i <= items@.len(),
            items@.len() == old(items)@.len(),
            forall|k: int| 0 <= k < old(items)@.len() ==> {
                &&& (#[trigger] items@[k]).path == old(items)@[k].path
                &&& items@[k].is_staged == old(items)@[k].is_staged
                &&& k < i ==> items@[k].is_selected == chosen@.contains(k as usize)
            },
        decreases old(items)@.len() - i,
    {
        let selected = is_chosen(chosen, i);
        items[i].is_selected = selected;
        i = i + 1;
    }
}

/// The prompt's labels: each item's path, in item order.
pub fn prompt_labels(items: &Vec<PathItems>) -> (r: Vec<String>)
    ensures
        r@.len() == items@.len(),
        forall|i: int| 0 <= i < items@.len() ==> (#[trigger] r@[i]) == items@[i].path,
{
    let mut r: Vec<String> = Vec::new();
    let mut i: usize = 0;
    while i < items.len()
        invariant
            i <= items@.len(),
            r@.len() == i,
            forall|k: int| 0 <= k < i ==> (#[trigger] r@[k]) == items@[k].path,
        decreases items@.len() - i,
    {
        r.push(items[i].path.clone());
        i = i + 1;
    }
    r
}

/// The prompt's pre-checked boxes: the items that are already staged.
pub fn prompt_defaults(items: &Vec<PathItems>) -> (r: Vec<bool>)
    ensures
        r@.len() == items@.len(),
        forall|i: int| 0 <= i < items@.len() ==> (#[trigger] r@[i]) == items@[i].is_staged,
{
    let mut r: Vec<bool> = Vec::new();
    let mut i: usize = 0;
    while i < items.len()
        invariant
            i <= items@.len(),
            r@.len() == i,
            forall|k: int| 0 <= k < i ==> (#[trigger] r@[k]) == items@[k].is_staged,
        decreases items@.len() - i,
    {
        r.push(items[i].is_staged);
        i = i + 1;
    }
    r
}

/// The items as the resolver reports them once a reconciliation has been
/// applied and the same selection is made again: each item's staged state
/// now equals its selection.
pub open spec fn applied(items: Seq<PathItems>) -> Seq<PathItems> {
    items.map_values(
        |it: PathItems| PathItems { path: it.path, is_staged: it.is_selected, is_selected: it.is_selected },
    )
}

/// Reconciling is idempotent: on the second run, with the index already
/// matching the selection, nothing is staged or unstaged, every action is a
/// no-op, and each item's log label is the one the first run gave it.
pub proof fn lemma_reconcile_idempotent(items: Seq<PathItems>)
    ensures
        paths_with(applied(items), Action::Stage) == Seq::<Seq<char>>::empty(),
        paths_with(applied(items), Action::Unstage) == Seq::<Seq<char>>::empty(),
        forall|i: int| 0 <= i < items.len() ==> !(#[trigger] applied(items)[i]).spec_action().spec_is_mutation(),
        forall|i: int| 0 <= i < items.len() ==> (#[trigger] applied(items)[i]).spec_action().spec_label()
            == items[i].spec_action().spec_label(),
    decreases items.len(),
{
    if items.len() > 0 {
        lemma_reconcile_idempotent(items.drop_last());
        assert(applied(items).drop_last() =~= applied(items.drop_last()));
    }
}

} // verus!
