use fbxcel_dom::axis::SignedAxis;
use fbxcel_dom::definitions::DefinitionsCache;
use fbxcel_dom::document::Document;
use fbxcel_dom::error::{Error, ErrorKind, FloatCategory};
use fbxcel_dom::global_settings::GlobalSettings;
use fbxcel_dom::properties::PropertiesNodeId;
use fbxcel_dom::property::{PropertyValue, ValueType};
use fbxcel_dom::tree::{NodeId, Tree};

/// A tree with a `GlobalSettings` node whose `Properties70` node holds the
/// given entries. Returns the tree and the `Properties70` node.
fn tree_with_settings(entries: &[(&str, PropertyValue)]) -> (Tree, NodeId) {
    let mut tree = Tree::new("");
    let root = tree.root();
    tree.add_child(root, "FBXHeaderExtension").unwrap();
    let settings = tree.add_child(root, "GlobalSettings").unwrap();
    tree.add_child(settings, "Version").unwrap();
    let props = tree.add_child(settings, "Properties70").unwrap();
    for (key, value) in entries {
        assert!(tree.add_property(props, key, value.clone()));
    }
    (tree, props)
}

fn document_with_settings(entries: &[(&str, PropertyValue)]) -> Document {
    let (tree, _) = tree_with_settings(entries);
    Document::new(tree, DefinitionsCache::new())
}

fn usual_entries() -> Vec<(&'static str, PropertyValue)> {
    vec![
        ("UpAxis", PropertyValue::I32(1)),
        ("UpAxisSign", PropertyValue::I32(1)),
        ("FrontAxis", PropertyValue::I32(2)),
        ("FrontAxisSign", PropertyValue::I32(1)),
        ("CoordAxis", PropertyValue::I32(0)),
        ("CoordAxisSign", PropertyValue::I32(1)),
        ("OriginalUpAxis", PropertyValue::I32(2)),
        ("OriginalUpAxisSign", PropertyValue::I32(-1)),
        ("UnitScaleFactor", PropertyValue::F64(100.0f64.to_bits())),
    ]
}

#[test]
fn end_to_end_settings() {
    let doc = document_with_settings(&usual_entries());
    let settings = doc.global_settings().unwrap();
    let axes = settings.axis_system().unwrap();
    assert_eq!(axes.up(), SignedAxis::PosY);
    assert_eq!(axes.front(), SignedAxis::PosZ);
    assert_eq!(axes.right(), SignedAxis::PosX);
    let factor = settings.unit_scale_factor().unwrap();
    assert_eq!(f64::from_bits(factor.unit_in_centimeters()), 100.0);
}

#[test]
fn each_axis_is_read_from_its_own_properties() {
    let doc = document_with_settings(&usual_entries());
    let settings = GlobalSettings::new(&doc).unwrap();
    assert_eq!(settings.up_axis(), Ok(SignedAxis::PosY));
    assert_eq!(settings.front_axis(), Ok(SignedAxis::PosZ));
    assert_eq!(settings.right_axis(), Ok(SignedAxis::PosX));
    assert_eq!(settings.original_up_axis(), Ok(SignedAxis::NegZ));
    assert_eq!(settings.up_axis_raw(), Ok(1));
    assert_eq!(settings.up_axis_sign_raw(), Ok(1));
    assert_eq!(settings.front_axis_raw(), Ok(2));
    assert_eq!(settings.front_axis_sign_raw(), Ok(1));
    assert_eq!(settings.coord_axis_raw(), Ok(0));
    assert_eq!(settings.coord_axis_sign_raw(), Ok(1));
    assert_eq!(settings.original_up_axis_raw(), Ok(2));
    assert_eq!(settings.original_up_axis_sign_raw(), Ok(-1));
    assert_eq!(settings.unit_scale_factor_raw(), Ok(100.0f64.to_bits()));
}

#[test]
fn missing_settings_node_is_reported() {
    let mut tree = Tree::new("");
    let root = tree.root();
    let other = tree.add_child(root, "Objects").unwrap();
    // a node of that name deeper in the tree does not count
    tree.add_child(other, "GlobalSettings").unwrap();
    let doc = Document::new(tree, DefinitionsCache::new());
    let e = doc.global_settings().unwrap_err();
    assert_eq!(e, Error::NodeNotFound { name: "GlobalSettings".to_string() });
    assert_eq!(e.kind(), ErrorKind::NodeNotFound);
    assert!(GlobalSettings::new(&doc).is_err());
}

#[test]
fn settings_without_properties_have_no_values() {
    let mut tree = Tree::new("");
    let root = tree.root();
    tree.add_child(root, "GlobalSettings").unwrap();
    let doc = Document::new(tree, DefinitionsCache::new());
    let settings = doc.global_settings().unwrap();
    assert_eq!(settings.raw_properties().direct(), None);
    assert_eq!(settings.raw_properties().default(), None);
    assert_eq!(
        settings.up_axis(),
        Err(Error::PropertyNotFound { key: "UpAxis".to_string() })
    );
    assert_eq!(
        settings.unit_scale_factor(),
        Err(Error::PropertyNotFound { key: "UnitScaleFactor".to_string() })
    );
}

#[test]
fn missing_properties_are_reported_in_reading_order() {
    let doc = document_with_settings(&[("UpAxis", PropertyValue::I32(1))]);
    let settings = doc.global_settings().unwrap();
    assert_eq!(
        settings.up_axis(),
        Err(Error::PropertyNotFound { key: "UpAxisSign".to_string() })
    );
    assert_eq!(
        settings.front_axis(),
        Err(Error::PropertyNotFound { key: "FrontAxis".to_string() })
    );
    assert_eq!(
        settings.right_axis(),
        Err(Error::PropertyNotFound { key: "CoordAxis".to_string() })
    );
    assert_eq!(
        settings.original_up_axis(),
        Err(Error::PropertyNotFound { key: "OriginalUpAxis".to_string() })
    );
    // the up axis fails first
    assert_eq!(
        settings.axis_system(),
        Err(Error::PropertyNotFound { key: "UpAxisSign".to_string() })
    );
}

#[test]
fn axis_system_reports_the_first_axis_that_fails() {
    let mut entries = usual_entries();
    entries[2] = ("FrontAxis", PropertyValue::I32(7));
    entries[5] = ("CoordAxisSign", PropertyValue::I32(0));
    let doc = document_with_settings(&entries);
    let settings = doc.global_settings().unwrap();
    assert_eq!(
        settings.axis_system(),
        Err(Error::InvalidAxis { axis_name: "Front".to_string(), value: 7 })
    );
    assert_eq!(
        settings.right_axis(),
        Err(Error::InvalidAxisSign { axis_name: "Coord".to_string(), value: 0 })
    );
    assert_eq!(settings.up_axis(), Ok(SignedAxis::PosY));
}

#[test]
fn axes_that_share_an_axis_are_no_system() {
    let mut entries = usual_entries();
    // front on the Y axis, like up
    entries[2] = ("FrontAxis", PropertyValue::I32(1));
    entries[3] = ("FrontAxisSign", PropertyValue::I32(-1));
    let doc = document_with_settings(&entries);
    let settings = doc.global_settings().unwrap();
    let e = settings.axis_system().unwrap_err();
    assert_eq!(
        e,
        Error::InvalidAxisSystem {
            up: SignedAxis::PosY,
            front: SignedAxis::NegY,
            right: SignedAxis::PosX,
        }
    );
    assert_eq!(e.kind(), ErrorKind::InvalidEnumValue);
}

#[test]
fn axis_property_of_the_wrong_type_is_a_mismatch() {
    let mut entries = usual_entries();
    entries[0] = ("UpAxis", PropertyValue::I64(1));
    let doc = document_with_settings(&entries);
    let settings = doc.global_settings().unwrap();
    let expected = Error::PropertyTypeMismatch {
        key: "UpAxis".to_string(),
        expected: ValueType::I32,
        found: ValueType::I64,
    };
    assert_eq!(settings.up_axis_raw(), Err(expected.clone()));
    assert_eq!(settings.up_axis(), Err(expected.clone()));
    assert_eq!(settings.axis_system(), Err(expected));
}

#[test]
fn unit_scale_factor_must_be_a_normal_double() {
    let doc = document_with_settings(&[("UnitScaleFactor", PropertyValue::F64(0.0f64.to_bits()))]);
    let settings = doc.global_settings().unwrap();
    assert_eq!(settings.unit_scale_factor_raw(), Ok(0.0f64.to_bits()));
    assert_eq!(
        settings.unit_scale_factor(),
        Err(Error::InvalidUnitScaleFactor { category: FloatCategory::Zero })
    );

    let doc = document_with_settings(&[("UnitScaleFactor", PropertyValue::F32(1.0f32.to_bits()))]);
    let settings = doc.global_settings().unwrap();
    assert_eq!(
        settings.unit_scale_factor(),
        Err(Error::PropertyTypeMismatch {
            key: "UnitScaleFactor".to_string(),
            expected: ValueType::F64,
            found: ValueType::F32,
        })
    );

    let doc = document_with_settings(&[("UnitScaleFactor", PropertyValue::F64(2.54f64.to_bits()))]);
    let settings = doc.global_settings().unwrap();
    let factor = settings.unit_scale_factor().unwrap();
    assert_eq!(f64::from_bits(factor.unit_in_centimeters()), 2.54);
}

#[test]
fn settings_fall_back_to_the_class_defaults() {
    let (mut tree, _) = tree_with_settings(&[("UpAxis", PropertyValue::I32(2))]);
    let root = tree.root();
    let definitions = tree.add_child(root, "Definitions").unwrap();
    let template = tree.add_child(definitions, "PropertyTemplate").unwrap();
    assert!(tree.add_property(template, "UpAxis", PropertyValue::I32(1)));
    assert!(tree.add_property(template, "UpAxisSign", PropertyValue::I32(-1)));
    let mut cache = DefinitionsCache::new();
    assert!(cache.insert("GlobalSettings", "FbxGlobalSettings", Some(PropertiesNodeId::new(template))));
    let doc = Document::new(tree, cache);
    let settings = doc.global_settings().unwrap();
    assert_eq!(settings.raw_properties().default(), Some(PropertiesNodeId::new(template)));
    // the code is the node's own, the sign is the default of the class
    assert_eq!(settings.up_axis_raw(), Ok(2));
    assert_eq!(settings.up_axis_sign_raw(), Ok(-1));
    assert_eq!(settings.up_axis(), Ok(SignedAxis::NegZ));
}

#[test]
fn raw_properties_reach_properties_without_an_accessor() {
    let mut entries = usual_entries();
    entries.push(("TimeMode", PropertyValue::I32(6)));
    let (tree, props) = tree_with_settings(&entries);
    let doc = Document::new(tree, DefinitionsCache::new());
    let settings = doc.global_settings().unwrap();
    let raw = settings.raw_properties();
    assert_eq!(raw.direct(), Some(PropertiesNodeId::new(props)));
    assert_eq!(raw.get("TimeMode"), Some(&PropertyValue::I32(6)));
    assert_eq!(doc.tree().property(props, "TimeMode"), Some(&PropertyValue::I32(6)));
    assert_eq!(doc.definitions_cache().len(), 0);
}

#[test]
fn repeated_settings_accessors_give_the_same_result() {
    let doc = document_with_settings(&usual_entries());
    let settings = doc.global_settings().unwrap();
    let copy = settings;
    assert_eq!(settings.axis_system(), settings.axis_system());
    assert_eq!(settings.axis_system(), copy.axis_system());
    assert_eq!(settings.unit_scale_factor(), settings.unit_scale_factor());
    assert_eq!(settings.up_axis(), doc.global_settings().unwrap().up_axis());
}
