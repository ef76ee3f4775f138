//! The keyed state store across insertions, removals and reorderings.

use scrollie::store::keyed_diff;

const KEY_A: u64 = 0;
const KEY_B: u64 = 1;
const KEY_C: u64 = 2;
const KEY_X: u64 = 3;

/// Rebuild the state list from a diff plan the way a host would: reuse
/// what the plan carries, construct fresh state for the rest.
fn rebuild(plan: Vec<(u64, Option<String>)>) -> (Vec<u64>, Vec<String>) {
    let mut keys = Vec::new();
    let mut children = Vec::new();
    for (key, state) in plan {
        keys.push(key);
        children.push(state.unwrap_or_else(|| "new".to_string()));
    }
    (keys, children)
}

#[test]
fn keyed_diff_preserves_state_after_middle_insertion() {
    let children = vec![
        "old-A".to_string(),
        "old-B".to_string(),
        "old-C".to_string(),
    ];
    let keys = vec![KEY_A, KEY_B, KEY_C];

    let new_keys = vec![KEY_A, KEY_X, KEY_B, KEY_C];

    let plan = keyed_diff(children, keys, &new_keys);
    let (keys, children) = rebuild(plan);

    assert_eq!(children.len(), 4);
    assert_eq!(keys, new_keys);

    assert_eq!(children[0], "old-A");
    assert_eq!(children[1], "new");
    assert_eq!(children[2], "old-B");
    assert_eq!(children[3], "old-C");
}

#[test]
fn keyed_diff_preserves_state_after_middle_removal() {
    let children = vec![
        "old-A".to_string(),
        "old-B".to_string(),
        "old-C".to_string(),
    ];
    let keys = vec![KEY_A, KEY_B, KEY_C];

    let new_keys = vec![KEY_A, KEY_C];

    let plan = keyed_diff(children, keys, &new_keys);
    let (keys, children) = rebuild(plan);

    assert_eq!(children.len(), 2);
    assert_eq!(keys, new_keys);

    assert_eq!(children[0], "old-A");
    assert_eq!(children[1], "old-C");
}

#[test]
fn keyed_diff_preserves_state_on_reorder() {
    let children = vec![
        "old-A".to_string(),
        "old-B".to_string(),
        "old-C".to_string(),
    ];
    let keys = vec![KEY_A, KEY_B, KEY_C];

    let new_keys = vec![KEY_A, KEY_C, KEY_B];

    let plan = keyed_diff(children, keys, &new_keys);
    let (keys, children) = rebuild(plan);

    assert_eq!(children.len(), 3);
    assert_eq!(keys, new_keys);

    assert_eq!(children[0], "old-A");
    assert_eq!(children[1], "old-C");
    assert_eq!(children[2], "old-B");
}

#[test]
fn keyed_diff_all_fresh_on_disjoint_keys() {
    let children = vec!["old-A".to_string()];
    let keys = vec![KEY_A];

    let new_keys = vec![KEY_B, KEY_C];

    let plan = keyed_diff(children, keys, &new_keys);
    assert_eq!(plan.len(), 2);
    assert_eq!(plan[0], (KEY_B, None));
    assert_eq!(plan[1], (KEY_C, None));
}

#[test]
fn keyed_diff_of_empty_lists() {
    let plan = keyed_diff(Vec::<String>::new(), Vec::new(), &Vec::new());
    assert!(plan.is_empty());
}
