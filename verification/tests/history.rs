use lua_interface_interpretator::model::{ElementKind, Project, UiElement};
use lua_interface_interpretator::ui::history::History;

fn project_named(name: &str) -> Project {
    let mut p = Project::default();
    p.name = name.to_string();
    p
}

#[test]
fn undo_after_checkpoint_restores_project() {
    let mut history = History::default();
    let mut project = project_named("before");
    history.checkpoint(&project);
    let root = project.root_id;
    project.add_element(UiElement::new(ElementKind::Panel, "p"), root);
    project.name = "after".to_string();
    assert!(history.can_undo());
    assert!(history.undo(&mut project));
    assert_eq!(project.name, "before");
    assert_eq!(project.elements.len(), 1);
    assert!(!history.can_undo());
    assert!(history.can_redo());
}

#[test]
fn redo_after_undo_restores_edit() {
    let mut history = History::default();
    let mut project = project_named("a");
    history.checkpoint(&project);
    project.name = "b".to_string();
    assert!(history.undo(&mut project));
    assert_eq!(project.name, "a");
    assert!(history.redo(&mut project));
    assert_eq!(project.name, "b");
    assert!(history.can_undo());
    assert!(!history.can_redo());
    assert!(history.undo(&mut project));
    assert_eq!(project.name, "a");
}

#[test]
fn undo_and_redo_on_empty_history_do_nothing() {
    let mut history = History::default();
    let mut project = project_named("x");
    assert!(!history.can_undo());
    assert!(!history.can_redo());
    assert!(!history.undo(&mut project));
    assert!(!history.redo(&mut project));
    assert_eq!(project.name, "x");
}

#[test]
fn checkpoint_clears_redo() {
    let mut history = History::default();
    let mut project = project_named("1");
    history.checkpoint(&project);
    project.name = "2".to_string();
    history.undo(&mut project);
    assert!(history.can_redo());
    history.checkpoint(&project);
    assert!(!history.can_redo());
}

#[test]
fn history_keeps_at_most_fifty_checkpoints() {
    let mut history = History::default();
    let mut project = project_named("0");
    for i in 0..60 {
        project.name = i.to_string();
        history.checkpoint(&project);
    }
    project.name = "current".to_string();
    let mut undone = 0;
    while history.undo(&mut project) {
        undone += 1;
    }
    assert_eq!(undone, 50);
    assert_eq!(project.name, "10");
}

#[test]
fn clear_forgets_everything() {
    let mut history = History::default();
    let mut project = project_named("a");
    history.checkpoint(&project);
    history.checkpoint(&project);
    history.undo(&mut project);
    history.clear();
    assert!(!history.can_undo());
    assert!(!history.can_redo());
}
