use fbxcel_dom::definitions::DefinitionsCache;
use fbxcel_dom::properties::PropertiesNodeId;
use fbxcel_dom::property::{find_entry, PropertyEntry, PropertyValue};
use fbxcel_dom::tree::{NodeId, Tree};

#[test]
fn new_tree_has_a_root_only() {
    let tree = Tree::new("root");
    assert_eq!(tree.len(), 1);
    assert_eq!(tree.root(), NodeId(0));
    assert!(tree.contains(NodeId(0)));
    assert!(!tree.contains(NodeId(1)));
    assert_eq!(tree.name(tree.root()), Some("root"));
    assert_eq!(tree.name(NodeId(1)), None);
    assert_eq!(tree.children(tree.root()), Some(&[][..]));
    assert_eq!(tree.children(NodeId(1)), None);
}

#[test]
fn children_are_kept_in_order() {
    let mut tree = Tree::new("");
    let root = tree.root();
    let a = tree.add_child(root, "A").unwrap();
    let b = tree.add_child(root, "B").unwrap();
    let a2 = tree.add_child(root, "A").unwrap();
    let inner = tree.add_child(b, "A").unwrap();
    assert_eq!((a, b, a2, inner), (NodeId(1), NodeId(2), NodeId(3), NodeId(4)));
    assert_eq!(tree.len(), 5);
    assert_eq!(tree.children(root), Some(&[a, b, a2][..]));
    assert_eq!(tree.children(b), Some(&[inner][..]));
    assert_eq!(tree.name(inner), Some("A"));
}

#[test]
fn first_child_by_name_finds_the_first_match_among_the_children() {
    let mut tree = Tree::new("");
    let root = tree.root();
    let a = tree.add_child(root, "A").unwrap();
    let b = tree.add_child(root, "B").unwrap();
    let _a2 = tree.add_child(root, "A").unwrap();
    let deep = tree.add_child(b, "Deep").unwrap();
    assert_eq!(tree.first_child_by_name(root, "A"), Some(a));
    assert_eq!(tree.first_child_by_name(root, "B"), Some(b));
    // grandchildren are not children
    assert_eq!(tree.first_child_by_name(root, "Deep"), None);
    assert_eq!(tree.first_child_by_name(b, "Deep"), Some(deep));
    assert_eq!(tree.first_child_by_name(root, "C"), None);
    assert_eq!(tree.first_child_by_name(root, "a"), None);
    assert_eq!(tree.first_child_by_name(NodeId(99), "A"), None);
}

#[test]
fn add_child_to_a_missing_parent_changes_nothing() {
    let mut tree = Tree::new("");
    assert_eq!(tree.add_child(NodeId(1), "A"), None);
    assert_eq!(tree.len(), 1);
}

#[test]
fn keys_are_unique_within_a_node() {
    let mut tree = Tree::new("");
    let root = tree.root();
    let node = tree.add_child(root, "P").unwrap();
    assert!(tree.add_property(node, "K", PropertyValue::I32(1)));
    assert!(!tree.add_property(node, "K", PropertyValue::I32(2)));
    assert_eq!(tree.property(node, "K"), Some(&PropertyValue::I32(1)));
    // the same key may be used in another node
    assert!(tree.add_property(root, "K", PropertyValue::I32(3)));
    assert_eq!(tree.property(root, "K"), Some(&PropertyValue::I32(3)));
    assert_eq!(tree.property(node, "L"), None);
    assert_eq!(tree.property(NodeId(7), "K"), None);
    assert!(!tree.add_property(NodeId(7), "K", PropertyValue::I32(4)));
}

#[test]
fn find_entry_gives_the_first_position_of_a_key() {
    let entries = vec![
        PropertyEntry { key: "A".to_string(), value: PropertyValue::I32(1) },
        PropertyEntry { key: "B".to_string(), value: PropertyValue::I32(2) },
        PropertyEntry { key: "A".to_string(), value: PropertyValue::I32(3) },
    ];
    assert_eq!(find_entry(&entries, "A"), Some(0));
    assert_eq!(find_entry(&entries, "B"), Some(1));
    assert_eq!(find_entry(&entries, "C"), None);
    assert_eq!(find_entry(&Vec::new(), "A"), None);
}

#[test]
fn definitions_cache_is_keyed_by_class_and_subclass() {
    let mut cache = DefinitionsCache::new();
    assert_eq!(cache.len(), 0);
    let model = PropertiesNodeId::new(NodeId(5));
    let mesh = PropertiesNodeId::new(NodeId(9));
    assert!(cache.insert("Model", "FbxNode", Some(model)));
    assert!(cache.insert("Geometry", "FbxMesh", Some(mesh)));
    assert!(cache.insert("Material", "", None));
    assert_eq!(cache.len(), 3);
    assert_eq!(cache.props_node_id("Model", "FbxNode"), Some(model));
    assert_eq!(cache.props_node_id("Geometry", "FbxMesh"), Some(mesh));
    // an entry without a template and a missing entry both give nothing
    assert_eq!(cache.props_node_id("Material", ""), None);
    assert_eq!(cache.props_node_id("Texture", "FbxFileTexture"), None);
    // both parts of the key count
    assert_eq!(cache.props_node_id("Model", "FbxMesh"), None);
    assert_eq!(cache.props_node_id("Geometry", "FbxNode"), None);
}

#[test]
fn definitions_cache_keeps_the_first_entry_of_a_class() {
    let mut cache = DefinitionsCache::new();
    let first = PropertiesNodeId::new(NodeId(1));
    let second = PropertiesNodeId::new(NodeId(2));
    assert!(cache.insert("Model", "FbxNode", Some(first)));
    assert!(!cache.insert("Model", "FbxNode", Some(second)));
    assert_eq!(cache.len(), 1);
    assert_eq!(cache.props_node_id("Model", "FbxNode"), Some(first));
}

#[test]
fn definitions_cache_lookups_are_stable() {
    let mut cache = DefinitionsCache::new();
    let model = PropertiesNodeId::new(NodeId(5));
    assert!(cache.insert("Model", "FbxNode", Some(model)));
    for _ in 0..3 {
        assert_eq!(cache.props_node_id("Model", "FbxNode"), Some(model));
        assert_eq!(cache.props_node_id("Other", "FbxNode"), None);
    }
    assert_eq!(model.node_id(), NodeId(5));
}
