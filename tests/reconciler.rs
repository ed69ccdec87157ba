use git_quick_add::{
    mark_selected, prompt_defaults, prompt_labels, reconcile, resolve_paths, Action, DiffPaths, LogLabel,
    PathItems, StatusFlags, StatusRecord,
};

fn item(path: &str, is_staged: bool, is_selected: bool) -> PathItems {
    PathItems { path: path.to_string(), is_staged, is_selected }
}

#[test]
fn decision_table() {
    assert_eq!(Action::decide(true, false), Action::Unstage);
    assert_eq!(Action::decide(false, true), Action::Stage);
    assert_eq!(Action::decide(true, true), Action::KeepStaged);
    assert_eq!(Action::decide(false, false), Action::KeepUnstaged);
}

#[test]
fn labels_follow_the_selection() {
    assert_eq!(Action::Unstage.label(), LogLabel::Unstaged);
    assert_eq!(Action::Stage.label(), LogLabel::Staged);
    assert_eq!(Action::KeepStaged.label(), LogLabel::Staged);
    assert_eq!(Action::KeepUnstaged.label(), LogLabel::Unstaged);
    assert!(Action::Stage.is_mutation());
    assert!(Action::Unstage.is_mutation());
    assert!(!Action::KeepStaged.is_mutation());
    assert!(!Action::KeepUnstaged.is_mutation());
}

#[test]
fn reconcile_batches_in_item_order() {
    let items = vec![
        item("a.txt", true, false),
        item("b.txt", false, true),
        item("c.txt", true, true),
        item("d.txt", false, false),
        item("e.txt", false, true),
        item("f.txt", true, false),
    ];
    let r = reconcile(&items);
    assert_eq!(
        r.actions,
        vec![Action::Unstage, Action::Stage, Action::KeepStaged, Action::KeepUnstaged, Action::Stage, Action::Unstage]
    );
    assert_eq!(r.to_stage, vec!["b.txt".to_string(), "e.txt".to_string()]);
    assert_eq!(r.to_unstage, vec!["a.txt".to_string(), "f.txt".to_string()]);
}

#[test]
fn reconcile_of_nothing_is_empty() {
    let r = reconcile(&vec![]);
    assert!(r.actions.is_empty());
    assert!(r.to_stage.is_empty());
    assert!(r.to_unstage.is_empty());
}

#[test]
fn second_run_with_same_selection_changes_nothing() {
    let first = vec![item("a.txt", true, false), item("b.txt", false, true), item("c.txt", true, true)];
    let r1 = reconcile(&first);
    assert_eq!(r1.to_stage.len() + r1.to_unstage.len(), 2);
    let mut second: Vec<PathItems> = first.iter().map(|i| item(&i.path, i.is_selected, false)).collect();
    mark_selected(&mut second, &vec![1, 2]);
    let r2 = reconcile(&second);
    assert!(r2.to_stage.is_empty());
    assert!(r2.to_unstage.is_empty());
    assert!(r2.actions.iter().all(|a| !a.is_mutation()));
    let labels1: Vec<LogLabel> = r1.actions.iter().map(|a| a.label()).collect();
    let labels2: Vec<LogLabel> = r2.actions.iter().map(|a| a.label()).collect();
    assert_eq!(labels1, labels2);
}

#[test]
fn mark_selected_sets_exactly_the_chosen() {
    let mut items = vec![item("a.txt", true, true), item("b.txt", false, false), item("c.txt", false, false)];
    mark_selected(&mut items, &vec![2, 1, 2]);
    assert!(!items[0].is_selected);
    assert!(items[1].is_selected);
    assert!(items[2].is_selected);
    assert!(items[0].is_staged);
    assert_eq!(items[2].path, "c.txt");
}

#[test]
fn mark_selected_ignores_indices_past_the_end() {
    let mut items = vec![item("a.txt", false, false)];
    mark_selected(&mut items, &vec![5]);
    assert!(!items[0].is_selected);
}

#[test]
fn prompt_shows_paths_with_staged_prechecked() {
    let items = vec![item("x.txt", true, false), item("y.txt", false, false)];
    assert_eq!(prompt_labels(&items), vec!["x.txt".to_string(), "y.txt".to_string()]);
    assert_eq!(prompt_defaults(&items), vec![true, false]);
}

#[test]
fn resolve_select_reconcile() {
    let records = vec![
        StatusRecord {
            flags: StatusFlags { index_new: true, ..StatusFlags::none() },
            head_to_index: Some(DiffPaths { old_path: None, new_path: Some("s.txt".to_string()) }),
            index_to_workdir: None,
        },
        StatusRecord {
            flags: StatusFlags { wt_new: true, ..StatusFlags::none() },
            head_to_index: None,
            index_to_workdir: Some(DiffPaths { old_path: None, new_path: Some("u.txt".to_string()) }),
        },
    ];
    let mut items = resolve_paths(&records).unwrap();
    mark_selected(&mut items, &vec![1]);
    let r = reconcile(&items);
    assert_eq!(r.to_stage, vec!["u.txt".to_string()]);
    assert_eq!(r.to_unstage, vec!["s.txt".to_string()]);
}
