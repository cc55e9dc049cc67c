use cedarling_pg::resource::{
    get_table_name_from_context, resource_for_table, table_name_to_entity_type, CedarResource,
};

#[test]
fn test_table_name_to_entity_type() {
    assert_eq!(table_name_to_entity_type("users"), "Users");
    assert_eq!(table_name_to_entity_type("user_profiles"), "UserProfiles");
    assert_eq!(table_name_to_entity_type("order_items"), "OrderItems");
}

#[test]
fn test_cedar_resource_creation() {
    let resource = CedarResource::new("Document".to_string(), "doc123".to_string()).with_attributes(
        [
            ("title".to_string(), serde_json::Value::String("Test Document".to_string())),
            ("department".to_string(), serde_json::Value::String("Engineering".to_string())),
        ]
        .into_iter()
        .collect(),
    );

    assert_eq!(resource.entity_type, "Document");
    assert_eq!(resource.id, "doc123");
    assert_eq!(resource.attributes.len(), 2);
}

#[test]
fn entity_type_mapping_is_deterministic() {
    for name in ["user_profiles", "order_items", "users"] {
        assert_eq!(table_name_to_entity_type(name), table_name_to_entity_type(name));
    }
}

#[test]
fn entity_type_skips_empty_words_and_keeps_case_of_rest() {
    assert_eq!(table_name_to_entity_type(""), "");
    assert_eq!(table_name_to_entity_type("__a__b_"), "AB");
    assert_eq!(table_name_to_entity_type("myTable_x"), "MyTableX");
    assert_eq!(table_name_to_entity_type("straße_ß"), "StraßeSS");
}

#[test]
fn row_resource_carries_table_and_time() {
    let table = get_table_name_from_context().unwrap();
    assert_eq!(table, "current_table");
    let r = resource_for_table("order_items", "2024-01-01T00:00:00+00:00".to_string());
    assert_eq!(r.entity_type, "OrderItems");
    assert_eq!(r.id, "placeholder_id");
    assert_eq!(r.attributes.len(), 2);
    assert_eq!(r.attributes[0].0, "_table");
    assert_eq!(r.attributes[0].1, serde_json::Value::String("order_items".to_string()));
    assert_eq!(r.attributes[1].0, "_timestamp");
}
