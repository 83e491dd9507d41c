use studio::definition::{FieldDefinition, FieldOptions, FieldValidation, ModelDefinition, RelationDefinition};
use studio::model::RelationKind;
use studio::page_renderer::{suggest_tree_renderer_from, suggest_user_tree_renderer, PageDefinition, PageRendererKind};
use studio::symbol::SymbolId;
use studio::value_type::ValueType;

fn id(n: u128) -> SymbolId {
    SymbolId::from_u128(n)
}

fn field(n: u128, name: &str, title: &str, relation: Option<RelationDefinition>) -> FieldDefinition {
    FieldDefinition {
        id: id(n),
        name: name.to_owned(),
        title: title.to_owned(),
        value_type: ValueType::Text,
        required: false,
        relation,
        options: FieldOptions {
            list_visible: false,
            detail_visible: false,
            form_visible: false,
            form_editable: false,
            filterable: false,
            sortable: false,
            unique: false,
            ai_extract: false,
            default_value: None,
        },
        validation: FieldValidation {
            min_length: None,
            max_length: None,
            minimum: None,
            maximum: None,
            pattern: None,
            min_items: None,
            max_items: None,
            unique_items: false,
        },
    }
}

fn model(n: u128, name: &str, title: &str, fields: Vec<FieldDefinition>) -> ModelDefinition {
    ModelDefinition { id: id(n), name: name.to_owned(), title: title.to_owned(), fields, indexes: Vec::new(), queries: Vec::new(), validations: Vec::new() }
}

fn to_dept(model: u128) -> Option<RelationDefinition> {
    Some(RelationDefinition { kind: RelationKind::ManyToOne, target_model_id: id(model), target_field_id: id(0) })
}

fn models() -> Vec<ModelDefinition> {
    vec![
        model(1, "Org", "部门", vec![field(10, "code", "编码", None), field(11, "Title", "名称", None), field(12, "Parent_Id", "上级", to_dept(1))]),
        model(2, "Account", "账号", vec![field(20, "email", "邮箱", None), field(21, "team", "所属", to_dept(1))]),
    ]
}

#[test]
fn suggests_a_tree_of_departments_for_user_pages() {
    let page = PageDefinition { id: id(100), name: "USER_admin".to_owned(), title: "管理".to_owned() };
    let draft = suggest_user_tree_renderer(&page, &models()).expect("a suggestion");
    assert_eq!(draft.kind, PageRendererKind::TreeTable);
    assert!(draft.extension.is_none());
    assert_eq!(draft.page_size, "20");
    assert_eq!(draft.tree_model_id, id(1).to_text());
    assert_eq!(draft.table_model_id, id(2).to_text());
    assert_eq!(draft.tree_label_field_id, id(10).to_text());
    assert_eq!(draft.tree_parent_field_id, id(12).to_text());
    assert_eq!(draft.table_relation_field_id, id(21).to_text());
}

#[test]
fn other_pages_get_no_suggestion() {
    let page = PageDefinition { id: id(100), name: "orders".to_owned(), title: "订单".to_owned() };
    assert!(suggest_user_tree_renderer(&page, &models()).is_none());
    let page = PageDefinition { id: id(100), name: "users".to_owned(), title: "用户".to_owned() };
    assert!(suggest_user_tree_renderer(&page, &models()[1..]).is_none());
    let mut lonely = models();
    lonely[0].fields.clear();
    assert!(suggest_user_tree_renderer(&page, &lonely).is_none());
}

#[test]
fn suggestion_reads_the_given_lower_case_texts() {
    let ms = models();
    let model_lower = vec!["org 部门".to_owned(), "account 账号".to_owned()];
    let field_lower = vec![
        vec!["code".to_owned(), "title".to_owned(), "parent_id".to_owned()],
        vec!["email".to_owned(), "team".to_owned()],
    ];
    let draft = suggest_tree_renderer_from("user 管理", &ms, &model_lower, &field_lower).expect("a suggestion");
    assert_eq!(draft.tree_label_field_id, id(10).to_text());
    assert!(suggest_tree_renderer_from("USER", &ms, &model_lower, &field_lower).is_none());
}
