use studio::definition::{FunctionNode, FunctionNodeEditor, FunctionNodeKind};
use studio::node_edit::{
    add_object_mapping, edit_format_values, edit_list_items, remove_object_mapping, retarget_object_mapping,
    set_for_each_body, set_for_each_max_items, set_format_template, set_object_mapping_source, set_query_limit,
    set_query_model, set_record_model, ItemEdit,
};
use studio::object_fields::{object_field_contains, object_field_get, object_field_insert, object_field_remove};
use studio::symbol::SymbolId;

fn id(n: u128) -> SymbolId {
    SymbolId::from_u128(n)
}

fn node(kind: FunctionNodeKind) -> FunctionNode {
    FunctionNode { id: id(1000), name: "n".to_owned(), kind, editor: FunctionNodeEditor { x: 1, y: 2 } }
}

fn choices(ids: &[u128]) -> Vec<(SymbolId, String)> {
    ids.iter().map(|n| (id(*n), format!("c{n}"))).collect()
}

#[test]
fn object_fields_behave_as_an_ordered_map() {
    let mut fields = Vec::new();
    object_field_insert(&mut fields, id(5), id(50));
    object_field_insert(&mut fields, id(2), id(20));
    object_field_insert(&mut fields, id(9), id(90));
    object_field_insert(&mut fields, id(5), id(55));
    assert_eq!(fields, vec![(id(2), id(20)), (id(5), id(55)), (id(9), id(90))]);
    assert_eq!(object_field_get(&fields, id(5)), Some(id(55)));
    assert_eq!(object_field_get(&fields, id(3)), None);
    assert!(object_field_contains(&fields, id(9)));
    assert_eq!(object_field_remove(&mut fields, id(2)), Some(id(20)));
    assert_eq!(object_field_remove(&mut fields, id(2)), None);
    assert_eq!(fields, vec![(id(5), id(55)), (id(9), id(90))]);
}

#[test]
fn object_mappings_are_edited_like_the_designer_does() {
    let mut n = node(FunctionNodeKind::Object { fields: vec![(id(2), id(20))] });
    add_object_mapping(&mut n, &choices(&[2, 7, 4]), &choices(&[30, 31]));
    assert!(matches!(&n.kind, FunctionNodeKind::Object { fields } if *fields == vec![(id(2), id(20)), (id(7), id(30))]));
    add_object_mapping(&mut n, &choices(&[2, 7]), &choices(&[30]));
    assert!(matches!(&n.kind, FunctionNodeKind::Object { fields } if fields.len() == 2));
    add_object_mapping(&mut n, &choices(&[4]), &[]);
    assert!(matches!(&n.kind, FunctionNodeKind::Object { fields } if fields.len() == 2));
    retarget_object_mapping(&mut n, id(7), id(1));
    assert!(matches!(&n.kind, FunctionNodeKind::Object { fields } if *fields == vec![(id(1), id(30)), (id(2), id(20))]));
    retarget_object_mapping(&mut n, id(1), id(2));
    assert!(matches!(&n.kind, FunctionNodeKind::Object { fields } if *fields == vec![(id(1), id(30)), (id(2), id(20))]));
    set_object_mapping_source(&mut n, id(2), id(99));
    set_object_mapping_source(&mut n, id(8), id(99));
    assert!(matches!(&n.kind, FunctionNodeKind::Object { fields } if *fields == vec![(id(1), id(30)), (id(2), id(99))]));
    remove_object_mapping(&mut n, id(1));
    assert!(matches!(&n.kind, FunctionNodeKind::Object { fields } if *fields == vec![(id(2), id(99))]));
    assert_eq!((n.id, n.name.as_str(), n.editor), (id(1000), "n", FunctionNodeEditor { x: 1, y: 2 }));
}

#[test]
fn list_and_format_items() {
    let mut n = node(FunctionNodeKind::List { items: vec![id(1)] });
    edit_list_items(&mut n, ItemEdit::Append(Some(id(2))));
    edit_list_items(&mut n, ItemEdit::Append(None));
    edit_list_items(&mut n, ItemEdit::Replace(0, id(3)));
    edit_list_items(&mut n, ItemEdit::Replace(5, id(4)));
    assert!(matches!(&n.kind, FunctionNodeKind::List { items } if *items == vec![id(3), id(2)]));
    edit_list_items(&mut n, ItemEdit::Remove(0));
    edit_list_items(&mut n, ItemEdit::Remove(9));
    assert!(matches!(&n.kind, FunctionNodeKind::List { items } if *items == vec![id(2)]));
    let mut f = node(FunctionNodeKind::Format { template: "a".to_owned(), values: Vec::new() });
    set_format_template(&mut f, "订单 {0}".to_owned());
    edit_format_values(&mut f, ItemEdit::Append(Some(id(7))));
    assert!(matches!(&f.kind, FunctionNodeKind::Format { template, values } if template == "订单 {0}" && *values == vec![id(7)]));
    edit_format_values(&mut n, ItemEdit::Append(Some(id(8))));
    assert!(matches!(&n.kind, FunctionNodeKind::List { items } if *items == vec![id(2)]));
}

#[test]
fn bounds_and_models_are_read_from_the_editor() {
    let mut n = node(FunctionNodeKind::ForEach { max_items: 100, body_function_id: id(1) });
    set_for_each_max_items(&mut n, "0");
    assert!(matches!(n.kind, FunctionNodeKind::ForEach { max_items: 1, .. }));
    set_for_each_max_items(&mut n, "50000");
    assert!(matches!(n.kind, FunctionNodeKind::ForEach { max_items: 10_000, .. }));
    set_for_each_max_items(&mut n, "abc");
    assert!(matches!(n.kind, FunctionNodeKind::ForEach { max_items: 10_000, .. }));
    set_for_each_body(&mut n, &id(4).to_text());
    assert!(matches!(n.kind, FunctionNodeKind::ForEach { body_function_id, .. } if body_function_id == id(4)));
    let mut q = node(FunctionNodeKind::QueryRecords { model_id: id(1), limit: 100 });
    set_query_limit(&mut q, "25");
    set_query_model(&mut q, &id(6).to_text());
    set_query_model(&mut q, "nope");
    assert!(matches!(q.kind, FunctionNodeKind::QueryRecords { model_id, limit: 25 } if model_id == id(6)));
    let mut r = node(FunctionNodeKind::UpdateRecord { model_id: id(1) });
    set_record_model(&mut r, &id(8).to_text());
    assert!(matches!(r.kind, FunctionNodeKind::UpdateRecord { model_id } if model_id == id(8)));
    set_record_model(&mut r, "");
    assert!(matches!(r.kind, FunctionNodeKind::UpdateRecord { model_id } if model_id == id(8)));
}
