use focusapp::item_sets::{add_item_set, set_is_focus, FOCUS_ITEM_SET_PREFIX};
use focusapp::lcu::{ItemSetPayload, ItemSetsResponse};

fn set(title: &str) -> ItemSetPayload {
    ItemSetPayload {
        title: title.to_string(),
        associated_champions: vec![103],
        associated_maps: vec![11],
        blocks: vec![],
        uid: None,
        champion: None,
        is_deletable: None,
        is_editable: None,
        map: None,
        mode: None,
        priority: None,
        sortrank: None,
        set_type: None,
    }
}

fn titles(sets: &ItemSetsResponse) -> Vec<String> {
    sets.item_sets.iter().map(|s| s.title.clone()).collect()
}

#[test]
fn item_set_prefix() {
    assert_eq!(FOCUS_ITEM_SET_PREFIX, "Focus: ");
    assert!(set_is_focus(&set("Focus: Ahri MID")));
    assert!(set_is_focus(&set("Focus: ")));
    assert!(!set_is_focus(&set("Focus:Ahri")));
    assert!(!set_is_focus(&set("focus: Ahri")));
    assert!(!set_is_focus(&set("My Focus: Ahri")));
    assert!(!set_is_focus(&set("")));
}

#[test]
fn marked_sets_are_replaced_by_the_new_one() {
    let before = ItemSetsResponse {
        account_id: 42,
        item_sets: vec![
            set("Focus: Ahri MID"),
            set("My own"),
            set("Focus: Zed MID"),
            set("Another"),
        ],
        timestamp: 1,
    };
    let after = add_item_set(before, set("Focus: Jinx BOTTOM"), 1_700_000_000_000);
    assert_eq!(after.account_id, 42);
    assert_eq!(after.timestamp, 1_700_000_000_000);
    assert_eq!(titles(&after), vec!["My own", "Another", "Focus: Jinx BOTTOM"]);
}

#[test]
fn empty_collection_gets_the_new_set() {
    let before = ItemSetsResponse { account_id: 7, item_sets: vec![], timestamp: 0 };
    let after = add_item_set(before, set("Focus: Jinx BOTTOM"), -5);
    assert_eq!(titles(&after), vec!["Focus: Jinx BOTTOM"]);
    assert_eq!(after.timestamp, -5);
    assert_eq!(after.item_sets[0], set("Focus: Jinx BOTTOM"));
}

#[test]
fn one_marked_set_whatever_was_there_before() {
    for marked_before in 0..5 {
        let mut sets = vec![set("Mine")];
        for i in 0..marked_before {
            sets.push(set(&format!("Focus: old {}", i)));
        }
        let before = ItemSetsResponse { account_id: 1, item_sets: sets, timestamp: 0 };
        let after = add_item_set(before, set("Focus: new"), 9);
        let marked = after.item_sets.iter().filter(|s| s.title.starts_with("Focus: ")).count();
        assert_eq!(marked, 1);
        assert_eq!(after.item_sets.len(), 2);
    }
}
