use todo_state::item::TodoItem;
use todo_state::state::{State, StateModel};

fn pairs(items: &[TodoItem]) -> Vec<(usize, String)> {
    items.iter().map(|t| (t.id, t.title.clone())).collect()
}

#[test]
fn end_to_end_scenario() {
    let mut model = StateModel::init();
    let (id, _) = model.push("Buy milk".to_string());
    assert_eq!(id, 0);
    assert_eq!(pairs(&model.snapshot()), vec![(0, "Buy milk".to_string())]);
    let (id, _) = model.push("Walk dog".to_string());
    assert_eq!(id, 1);
    assert_eq!(
        pairs(&model.snapshot()),
        vec![(0, "Buy milk".to_string()), (1, "Walk dog".to_string())]
    );
    assert!(model.remove(0).is_some());
    assert_eq!(pairs(&model.snapshot()), vec![(1, "Walk dog".to_string())]);
    assert!(model.remove(0).is_none());
    assert_eq!(pairs(&model.snapshot()), vec![(1, "Walk dog".to_string())]);
}

#[test]
fn ids_are_distinct_and_increasing_across_removals() {
    let mut store = State::new();
    let mut ids = Vec::new();
    ids.push(store.insert("a".to_string()));
    ids.push(store.insert("b".to_string()));
    assert!(store.remove(ids[0]));
    ids.push(store.insert("c".to_string()));
    assert!(store.remove(ids[2]));
    assert!(store.remove(ids[1]));
    ids.push(store.insert("d".to_string()));
    assert_eq!(ids, vec![0, 1, 2, 3]);
    for w in ids.windows(2) {
        assert!(w[0] < w[1]);
    }
    assert_eq!(store.count(), 4);
    assert_eq!(store.len(), 1);
}

#[test]
fn removing_the_older_of_two_keeps_the_newer() {
    let mut store = State::new();
    let a = store.insert("a".to_string());
    let _b = store.insert("b".to_string());
    assert!(store.remove(a));
    assert_eq!(pairs(&store.snapshot()), vec![(1, "b".to_string())]);
}

#[test]
fn remove_keeps_the_order_of_the_rest() {
    let mut store = State::new();
    for t in ["x", "y", "z", "w"] {
        store.insert(t.to_string());
    }
    assert!(store.remove(2));
    assert_eq!(
        pairs(&store.snapshot()),
        vec![(0, "x".to_string()), (1, "y".to_string()), (3, "w".to_string())]
    );
}

#[test]
fn remove_of_unissued_id_changes_nothing() {
    let mut store = State::new();
    store.insert("only".to_string());
    let before = pairs(&store.snapshot());
    assert!(!store.remove(7));
    assert!(!store.remove(usize::MAX));
    assert_eq!(pairs(&store.snapshot()), before);
    assert_eq!(store.count(), 1);
}

#[test]
fn remove_on_empty_store_is_a_no_op() {
    let mut model = StateModel::init();
    assert!(model.remove(0).is_none());
    assert!(model.snapshot().is_empty());
    assert_eq!(model.state().count(), 0);
}

#[test]
fn empty_title_is_accepted() {
    let mut store = State::new();
    let id = store.insert(String::new());
    assert_eq!(id, 0);
    assert_eq!(pairs(&store.snapshot()), vec![(0, String::new())]);
}

#[test]
fn snapshot_is_a_copy() {
    let mut store = State::new();
    store.insert("keep".to_string());
    let mut snap = store.snapshot();
    snap.clear();
    assert_eq!(store.len(), 1);
    assert_eq!(pairs(&store.snapshot()), vec![(0, "keep".to_string())]);
}

#[test]
fn item_duplicate_keeps_fields() {
    let item = TodoItem::new(5, "five".to_string());
    let copy = item.duplicate();
    assert_eq!(copy.id, 5);
    assert_eq!(copy.title, "five");
}
