use studio::definition::{FieldDefinition, FieldOptions, FieldValidation, ModelDefinition, RelationDefinition};
use studio::field_editor::{field_editor_submit, relation_editor_submit};
use studio::form::FormValues;
use studio::definition::PermissionDefinition;
use studio::json::JsonValue;
use studio::menu::{MenuActionAccess, MenuDefinition, MenuRowActions};
use studio::menu_editor::{menu_editor_input, menu_editor_submit, menu_sort_max, requested_menu_position, MenuEditorMode};
use studio::model::RelationKind;
use studio::patch::{ChildCollection, EditableProperty, GraphEntity, GraphPatch, PatchValue};
use studio::symbol::SymbolId;
use studio::text::parse_usize;
use studio::value_type::ValueType;

fn id(n: u128) -> SymbolId {
    SymbolId::from_u128(n)
}

fn field(n: u128, name: &str, title: &str, relation: Option<RelationDefinition>) -> FieldDefinition {
    FieldDefinition {
        id: id(n),
        name: name.to_owned(),
        title: title.to_owned(),
        value_type: ValueType::Text,
        required: false,
        relation,
        options: FieldOptions {
            list_visible: true,
            detail_visible: true,
            form_visible: true,
            form_editable: true,
            filterable: false,
            sortable: false,
            unique: false,
            ai_extract: false,
            default_value: None,
        },
        validation: FieldValidation {
            min_length: None,
            max_length: Some(10),
            minimum: None,
            maximum: None,
            pattern: Some("email".to_owned()),
            min_items: None,
            max_items: None,
            unique_items: false,
        },
    }
}

fn model(n: u128, fields: Vec<FieldDefinition>) -> ModelDefinition {
    ModelDefinition { id: id(n), name: format!("m{n}"), title: format!("M{n}"), fields, indexes: Vec::new(), queries: Vec::new(), validations: Vec::new() }
}

fn rel(kind: RelationKind, model: u128, field: u128) -> Option<RelationDefinition> {
    Some(RelationDefinition { kind, target_model_id: id(model), target_field_id: id(field) })
}

#[test]
fn opposite_cardinalities() {
    assert_eq!(RelationKind::ManyToOne.opposite(), RelationKind::OneToMany);
    assert_eq!(RelationKind::OneToMany.opposite(), RelationKind::ManyToOne);
    assert_eq!(RelationKind::OneToOne.opposite(), RelationKind::OneToOne);
    assert_eq!(RelationKind::ManyToMany.opposite().opposite(), RelationKind::ManyToMany);
}

#[test]
fn field_editor_checks_titles_and_names() {
    let draft = field(1, "", "  ", None);
    let submit = |d: &FieldDefinition, editing: bool, derived: &str| field_editor_submit(id(9), 3, editing, d, "stable", derived, "text", "many_to_one", "", "", &[], None, None);
    assert_eq!(submit(&draft, false, "x").err(), Some("字段标题不能为空".to_owned()));
    let draft = field(1, "", " 名称 ", None);
    assert_eq!(submit(&draft, false, "").err(), Some("字段标题无法生成有效标识，请包含中文、字母或数字".to_owned()));
    assert_eq!(submit(&draft, false, "id").err(), Some("id 是系统主键字段，请直接选择主键生成策略".to_owned()));
    assert!(submit(&draft, true, "").is_ok());
}

#[test]
fn field_editor_inserts_a_new_field() {
    let draft = field(1, "", " 名称 ", None);
    let patches = field_editor_submit(id(9), 3, false, &draft, "", "name", "integer", "", "", "", &[], None, Some(JsonValue::String("无".to_owned()))).expect("valid");
    assert_eq!(patches.len(), 1);
    match &patches[0] {
        GraphPatch::Insert { parent_id, collection: ChildCollection::Fields, index: 3, entity: GraphEntity::Field(f) } => {
            assert_eq!(*parent_id, id(9));
            assert_eq!((f.name.as_str(), f.title.as_str(), &f.value_type), ("name", "名称", &ValueType::Integer));
            assert_eq!(f.validation.pattern.as_deref(), Some("email"));
            assert!(f.relation.is_none());
            assert!(matches!(&f.options.default_value, Some(JsonValue::String(s)) if s == "无"));
        }
        _ => panic!("expected an insertion"),
    }
}

#[test]
fn field_editor_links_both_ends_of_a_relation() {
    let target = model(2, vec![field(3, "owner", "负责人", None), field(4, "taken", "已占用", rel(RelationKind::OneToOne, 7, 8))]);
    let models = vec![target];
    let draft = field(1, "dept", "部门", rel(RelationKind::ManyToOne, 5, 6));
    let patches = field_editor_submit(id(9), 3, true, &draft, "dept", "", "relation", "many_to_one", &id(2).to_text(), &id(3).to_text(), &models, draft.relation, Some(JsonValue::Bool(true)))
        .expect("valid");
    assert_eq!(patches.len(), 9);
    assert!(matches!(&patches[0], GraphPatch::Rename { name, title: Some(t), .. } if name == "dept" && t == "部门"));
    assert!(matches!(&patches[1], GraphPatch::SetProperty { value: PatchValue::ValueType(ValueType::Object { model_id }), .. } if *model_id == id(2)));
    assert!(matches!(&patches[3], GraphPatch::SetProperty { property: EditableProperty::FieldOptions, value: PatchValue::FieldOptions(o, _), .. } if matches!(o.default_value, Some(JsonValue::Bool(true)))));
    assert!(matches!(&patches[4], GraphPatch::SetProperty { property: EditableProperty::FieldRelation, value: PatchValue::Relation(Some(r)), .. } if r.target_field_id == id(3)));
    assert!(matches!(&patches[5], GraphPatch::SetProperty { target_id, property: EditableProperty::FieldRelation, value: PatchValue::Json(JsonValue::Null) } if *target_id == id(6)));
    assert!(matches!(&patches[7], GraphPatch::SetProperty { target_id, value: PatchValue::Relation(Some(r)), .. } if *target_id == id(3) && r.kind == RelationKind::OneToMany && r.target_field_id == id(1) && r.target_model_id == id(9)));
    assert!(matches!(&patches[8], GraphPatch::SetProperty { value: PatchValue::ValueType(ValueType::List { .. }), .. }));
    let taken = field_editor_submit(id(9), 3, true, &draft, "dept", "", "relation", "many_to_one", &id(2).to_text(), &id(4).to_text(), &models, None, None);
    assert_eq!(taken.err(), Some("对端字段已关联到其他字段，请先解除原关联".to_owned()));
    let missing = field_editor_submit(id(9), 3, true, &draft, "dept", "", "relation", "many_to_one", &id(7).to_text(), &id(4).to_text(), &models, None, None);
    assert_eq!(missing.err(), Some("关联模型不存在".to_owned()));
}

#[test]
fn self_relations_need_a_symmetric_cardinality() {
    let me = model(9, vec![field(1, "peer", "同伴", None)]);
    let models = vec![me];
    let draft = field(1, "peer", "同伴", None);
    let refused = relation_editor_submit(&draft, id(9), "many_to_one", &id(9).to_text(), &id(1).to_text(), &models);
    assert_eq!(refused.err(), Some("同一字段自关联只能使用对称基数".to_owned()));
    let patches = relation_editor_submit(&draft, id(9), "one_to_one", &id(9).to_text(), &id(1).to_text(), &models).expect("symmetric");
    assert_eq!(patches.len(), 2);
    assert_eq!(relation_editor_submit(&draft, id(9), "one_to_one", "", "", &models).err(), Some("请选择关联模型".to_owned()));
    assert_eq!(relation_editor_submit(&draft, id(9), "one_to_one", &id(9).to_text(), "", &models).err(), Some("请选择对端字段".to_owned()));
    assert_eq!(relation_editor_submit(&draft, id(9), "one_to_one", &id(9).to_text(), &id(5).to_text(), &models).err(), Some("对端字段不属于关联模型".to_owned()));
}

fn menu(n: u128, name: &str, children: Vec<MenuDefinition>) -> MenuDefinition {
    MenuDefinition {
        id: id(n),
        name: name.to_owned(),
        title: name.to_owned(),
        icon: None,
        page_id: None,
        enabled: true,
        children,
        required_permissions: Vec::new(),
        row_actions: MenuRowActions { detail: MenuActionAccess::Hidden, edit: MenuActionAccess::Hidden, delete: MenuActionAccess::Hidden },
    }
}

fn form(entries: &[(&str, &str)]) -> FormValues {
    FormValues { entries: entries.iter().map(|(k, v)| (k.to_string(), v.to_string())).collect() }
}

#[test]
fn menu_positions_are_clamped() {
    assert_eq!(parse_usize("+12"), Some(12));
    assert_eq!(parse_usize("x"), None);
    assert_eq!(requested_menu_position("3", 0, 5), 2);
    assert_eq!(requested_menu_position("0", 4, 5), 0);
    assert_eq!(requested_menu_position("99", 0, 5), 4);
    assert_eq!(requested_menu_position("", 1, 5), 1);
    let roots = vec![menu(1, "scene", vec![menu(2, "a", vec![]), menu(3, "b", vec![])])];
    let edit = MenuEditorMode::Edit { parent_id: id(1), collection: ChildCollection::MenuChildren, position: 0, sibling_count: 2 };
    assert_eq!(menu_sort_max(edit, true, id(1), &roots), 2);
    assert_eq!(menu_sort_max(edit, true, id(2), &roots), 1);
    assert_eq!(menu_sort_max(MenuEditorMode::Create { parent_id: id(1), index: 2 }, false, id(1), &roots), 3);
    let scene = MenuEditorMode::Edit { parent_id: id(100), collection: ChildCollection::Menus, position: 0, sibling_count: 1 };
    assert_eq!(menu_sort_max(scene, true, id(2), &roots), 2);
}

#[test]
fn menu_editor_reads_its_form() {
    let permissions = vec![PermissionDefinition { id: id(50), name: "p".to_owned(), title: "P".to_owned() }];
    let f = form(&[
        ("name", " orders "),
        ("title", " 订单 "),
        ("icon", ""),
        ("path", " /orders "),
        ("menu_enabled", "on"),
        ("sort", " 2"),
        ("menu_permission_00000000-0000-0000-0000-000000000032", "on"),
        ("detail_access", "public"),
        ("edit_access", "permission:00000000-0000-0000-0000-000000000032"),
    ]);
    let input = menu_editor_input(&f, &permissions);
    assert_eq!((input.name.as_str(), input.title.as_str(), input.icon.as_str(), input.path.as_str(), input.sort.as_str()), ("orders", "订单", "", "/orders", " 2"));
    assert!(input.enabled);
    assert_eq!(input.required_permissions, vec![id(50)]);
    assert_eq!(input.row_actions.detail, MenuActionAccess::Public);
    assert_eq!(input.row_actions.edit, MenuActionAccess::Permission { permission_id: id(50) });
    assert_eq!(input.row_actions.delete, MenuActionAccess::Hidden);
}

#[test]
fn menu_editor_submits_patches() {
    let roots = vec![menu(1, "scene", vec![menu(2, "a", vec![]), menu(3, "b", vec![])])];
    let f = form(&[("name", "c"), ("title", "C"), ("sort", "1"), ("icon", "box")]);
    let input = menu_editor_input(&f, &[]);
    let create = MenuEditorMode::Create { parent_id: id(1), index: 2 };
    let patches = menu_editor_submit(&input, true, None, id(4), create, false, &roots, &id(30).to_text(), "", None, id(1)).expect("valid");
    match &patches[..] {
        [GraphPatch::Insert { parent_id, collection: ChildCollection::MenuChildren, index: 0, entity: GraphEntity::Menu(m) }] => {
            assert_eq!(*parent_id, id(1));
            assert_eq!((m.name.as_str(), m.icon.as_deref(), m.page_id, m.enabled), ("c", Some("box"), Some(id(30)), false));
        }
        _ => panic!("expected one insertion"),
    }
    assert_eq!(menu_editor_submit(&input, false, None, id(4), create, false, &roots, "", "", None, id(1)).err(), Some("菜单标识必须以小写字母开头，只能包含小写字母、数字、下划线或连字符".to_owned()));
    let dup = menu_editor_input(&form(&[("name", "a"), ("title", "A")]), &[]);
    assert_eq!(menu_editor_submit(&dup, true, None, id(4), create, false, &roots, "", "", None, id(1)).err(), Some("菜单标识已存在: a".to_owned()));
    let untitled = menu_editor_input(&form(&[("name", "z")]), &[]);
    assert_eq!(menu_editor_submit(&untitled, true, None, id(4), create, false, &roots, "", "", None, id(1)).err(), Some("菜单名称不能为空".to_owned()));

    let edit = MenuEditorMode::Edit { parent_id: id(1), collection: ChildCollection::MenuChildren, position: 0, sibling_count: 2 };
    let renamed = menu_editor_input(&form(&[("name", "a"), ("title", "A2"), ("path", "/a"), ("sort", "2")]), &[]);
    assert_eq!(
        menu_editor_submit(&renamed, true, Some("路径无效".to_owned()), id(2), edit, true, &roots, "p", "p", Some(id(40)), id(1)).err(),
        Some("路径无效".to_owned())
    );
    let patches = menu_editor_submit(&renamed, true, None, id(2), edit, true, &roots, "p", "p", Some(id(40)), id(1)).expect("valid");
    assert_eq!(patches.len(), 8);
    assert!(matches!(&patches[1], GraphPatch::SetProperty { property: EditableProperty::Icon, value: PatchValue::Json(JsonValue::Null), .. }));
    assert!(matches!(&patches[2], GraphPatch::SetProperty { property: EditableProperty::MenuPage, value: PatchValue::Json(JsonValue::String(p)), .. } if p == "p"));
    assert!(matches!(&patches[6], GraphPatch::SetProperty { target_id, property: EditableProperty::RoutePath, .. } if *target_id == id(40)));
    assert!(matches!(&patches[7], GraphPatch::Move { parent_id, index: 1, collection: ChildCollection::MenuChildren, .. } if *parent_id == id(1)));
    let stay = menu_editor_input(&form(&[("name", "a"), ("title", "A2"), ("sort", "1")]), &[]);
    let patches = menu_editor_submit(&stay, true, None, id(2), edit, true, &roots, "", "p", Some(id(40)), id(1)).expect("valid");
    assert_eq!(patches.len(), 6);
}

#[test]
fn index_editor_keeps_the_model_order() {
    let fields = vec![field(1, "a", "A", None), field(2, "b", "B", None), field(3, "c", "C", None)];
    let patches = studio::model_editors::index_editor_submit(id(9), 4, id(50), false, &fields, &[id(3), id(1), id(7)], true).expect("valid");
    match &patches[..] {
        [GraphPatch::Insert { parent_id, collection: ChildCollection::ModelIndexes, index: 4, entity: GraphEntity::ModelIndex(index) }] => {
            assert_eq!(*parent_id, id(9));
            assert_eq!(index.fields, vec![id(1), id(3)]);
            assert!(index.unique);
            assert_eq!(index.id, id(50));
        }
        _ => panic!("expected an insertion"),
    }
    let patches = studio::model_editors::index_editor_submit(id(9), 4, id(50), true, &fields, &[id(2)], false).expect("valid");
    assert!(matches!(&patches[0], GraphPatch::SetProperty { property: EditableProperty::ModelIndexFields, value: PatchValue::Ids(ids), .. } if *ids == vec![id(2)]));
    assert!(matches!(&patches[1], GraphPatch::SetProperty { property: EditableProperty::ModelIndexUnique, value: PatchValue::Json(JsonValue::Bool(false)), .. }));
    assert_eq!(studio::model_editors::index_editor_submit(id(9), 4, id(50), true, &fields, &[id(8)], false).err(), Some("索引至少需要一个字段".to_owned()));
}

#[test]
fn model_check_editor_validates_its_choices() {
    let fields = vec![field(1, "a", "A", None), field(2, "b", "B", None), field(3, "c", "C", None)];
    let submit = |kind: &str, message: &str, f: &str, w: &str, selected: &[SymbolId]| {
        studio::model_editors::validation_editor_submit(id(9), 2, id(60), false, &fields, kind, message, f, w, selected)
    };
    assert_eq!(submit("required_when_present", "  ", "", "", &[]).err(), Some("校验失败提示不能为空".to_owned()));
    assert_eq!(submit("required_when_present", "m", "x", "", &[]).err(), Some("请选择必填字段".to_owned()));
    assert_eq!(submit("required_when_present", "m", &id(1).to_text(), "", &[]).err(), Some("请选择条件字段".to_owned()));
    assert_eq!(submit("required_when_present", "m", &id(1).to_text(), &id(1).to_text(), &[]).err(), Some("必填字段与条件字段不能相同".to_owned()));
    assert_eq!(submit("at_least_one_required", "m", "", "", &[id(2)]).err(), Some("组合校验至少需要两个字段".to_owned()));
    let patches = submit("fields_required_together", " 需要同时填写 ", "", "", &[id(3), id(1)]).expect("valid");
    match &patches[..] {
        [GraphPatch::Insert { collection: ChildCollection::ModelValidations, index: 2, entity: GraphEntity::ModelValidation(v), .. }] => {
            assert_eq!(v.message, "需要同时填写");
            assert!(matches!(&v.rule, studio::definition::ModelValidationRule::FieldsRequiredTogether { field_ids } if *field_ids == vec![id(1), id(3)]));
        }
        _ => panic!("expected an insertion"),
    }
    let patches = studio::model_editors::validation_editor_submit(id(9), 2, id(60), true, &fields, "required_when_present", "m", &id(1).to_text(), &id(2).to_text(), &[]).expect("valid");
    assert!(matches!(&patches[0], GraphPatch::SetProperty { target_id, property: EditableProperty::ModelValidation, value: PatchValue::Validation(v) } if *target_id == id(60) && matches!(v.rule, studio::definition::ModelValidationRule::RequiredWhenPresent { .. })));
}
