use nft_marketplace::collections::{Key, VecMap, VecSet};
use nft_marketplace::index::GroupIndex;
use nft_marketplace::types::SaleKey;

fn col_s(text: &str) -> String {
    text.to_string()
}

#[test]
fn string_keys_are_the_same_when_equal() {
    assert!(col_s("alice").same(&col_s("alice")));
    assert!(!col_s("alice").same(&col_s("bob")));
    assert_eq!(col_s("alice").duplicate(), "alice");
}

#[test]
fn sale_keys_are_the_same_when_both_parts_are() {
    let key = SaleKey::new(&col_s("svc1"), &col_s("tok1"));
    assert!(key.same(&SaleKey::new(&col_s("svc1"), &col_s("tok1"))));
    assert!(!key.same(&SaleKey::new(&col_s("svc1"), &col_s("tok2"))));
    assert!(!key.same(&SaleKey::new(&col_s("svc2"), &col_s("tok1"))));
    assert_eq!(key.duplicate(), key);
}

#[test]
fn set_keeps_insertion_order_without_repetition() {
    let mut set: VecSet<String> = VecSet::new();
    assert!(set.is_empty());
    assert!(set.insert(col_s("a")));
    assert!(set.insert(col_s("b")));
    assert!(!set.insert(col_s("a")));
    assert!(set.insert(col_s("c")));
    assert_eq!(set.len(), 3);
    assert_eq!(set.to_vec(), vec![col_s("a"), col_s("b"), col_s("c")]);
    assert_eq!(set.position(&col_s("b")), Some(1));
    assert_eq!(set.position(&col_s("z")), None);
    assert!(set.contains(&col_s("c")));
    assert!(!set.contains(&col_s("z")));
}

#[test]
fn set_removal_swaps_in_the_last_element() {
    let mut set: VecSet<String> = VecSet::new();
    for name in ["a", "b", "c", "d"] {
        set.insert(col_s(name));
    }
    assert!(set.remove(&col_s("b")));
    assert_eq!(set.to_vec(), vec![col_s("a"), col_s("d"), col_s("c")]);
    assert!(!set.remove(&col_s("b")));
    assert!(set.remove(&col_s("c")));
    assert_eq!(set.to_vec(), vec![col_s("a"), col_s("d")]);
    assert!(set.remove(&col_s("a")));
    assert!(set.remove(&col_s("d")));
    assert!(set.is_empty());
}

#[test]
fn map_inserts_replaces_and_removes() {
    let mut map: VecMap<String, u32> = VecMap::new();
    assert_eq!(map.get(&col_s("a")), None);
    map.insert(col_s("a"), 1);
    map.insert(col_s("b"), 2);
    map.insert(col_s("c"), 3);
    map.insert(col_s("a"), 10);
    assert_eq!(map.get(&col_s("a")), Some(&10));
    assert_eq!(map.get(&col_s("b")), Some(&2));
    assert!(map.contains_key(&col_s("c")));
    assert_eq!(map.remove(&col_s("a")), Some(10));
    assert_eq!(map.remove(&col_s("a")), None);
    assert_eq!(map.get(&col_s("b")), Some(&2));
    assert_eq!(map.get(&col_s("c")), Some(&3));
    assert!(!map.contains_key(&col_s("a")));
}

#[test]
fn index_drops_a_group_with_its_last_member() {
    let mut index: GroupIndex<String> = GroupIndex::new();
    index.insert(&col_s("g"), col_s("x"));
    index.insert(&col_s("g"), col_s("y"));
    index.insert(&col_s("h"), col_s("x"));
    assert_eq!(index.count(&col_s("g")), 2);
    assert!(index.lists(&col_s("g"), &col_s("y")));
    assert!(!index.lists(&col_s("h"), &col_s("y")));
    index.remove(&col_s("g"), &col_s("x"));
    assert_eq!(index.members(&col_s("g")), vec![col_s("y")]);
    assert!(index.contains_group(&col_s("g")));
    index.remove(&col_s("g"), &col_s("y"));
    assert!(!index.contains_group(&col_s("g")));
    assert_eq!(index.count(&col_s("g")), 0);
    assert!(index.members(&col_s("g")).is_empty());
    index.remove(&col_s("nothing"), &col_s("x"));
    assert_eq!(index.members(&col_s("h")), vec![col_s("x")]);
}
