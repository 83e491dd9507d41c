use studio::definition::{
    CapabilityCatalog, CapabilityDefinition, FunctionDefinition, FunctionNode, FunctionNodeEditor, FunctionNodeKind,
    PortDefinition, RouteDefinition,
};
use studio::function_graph::{function_delete_guard, function_node_kind_key};
use studio::function_node::{default_function_node_kind, function_node_kind_options};
use studio::json::{equality_compare, json_equal, object_insert, JsonNumber, JsonValue};
use studio::menu::{
    menu_descendant_count, menu_parent_options, menu_table_rows, MenuActionAccess, MenuDefinition, MenuRowActions,
};
use studio::node_edit::{set_capability, set_capability_operation};
use studio::options::current_selection;
use studio::page_editor::{page_editor_submit, NewPageRenderer, PageEditorInput, PageEditorMode};
use studio::page_renderer::{PageDefinition, PageRendererKind};
use studio::patch::{ChildCollection, GraphEntity, GraphPatch};
use studio::patch_queue::{PatchQueue, PendingPatch};
use studio::symbol::SymbolId;
use studio::template::{format_template, replace_text};
use studio::text::{optional_u32, parse_i64, parse_optional_u32, text_less};
use studio::value_type::{constant_value, ValueType};

use studio::operators::{compiled_compare_operator, CompareOperator};
use studio::text::text_contains;
use studio::patch::{EditableProperty, PatchValue};
use studio::workbench::application_title_submit;
use studio::workbench::admin_menu_delete_row;
use studio::workbench::permission_delete_guard;
use studio::definition::{ValidationRule, ValidationRuleKind};
use studio::validation_rule::set_validation_rule_length;

fn id(n: u128) -> SymbolId {
    SymbolId::from_u128(n)
}

fn catalog() -> CapabilityCatalog {
    CapabilityCatalog {
        capabilities: vec![
            ("mail".to_owned(), CapabilityDefinition { operations: vec!["send".to_owned(), "verify".to_owned()] }),
            ("sms".to_owned(), CapabilityDefinition { operations: vec![] }),
        ],
    }
}

fn capability_node() -> FunctionNode {
    FunctionNode {
        id: id(1),
        name: "call".to_owned(),
        kind: FunctionNodeKind::Capability { capability_id: "sms".to_owned(), operation: String::new() },
        editor: FunctionNodeEditor { x: 0, y: 0 },
    }
}

#[test]
fn changing_the_capability_takes_its_first_operation() {
    let mut node = capability_node();
    set_capability(&mut node, &catalog(), "mail".to_owned());
    match &node.kind {
        FunctionNodeKind::Capability { capability_id, operation } => {
            assert_eq!(capability_id, "mail");
            assert_eq!(operation, "send");
        }
        _ => panic!("still a capability node"),
    }
    set_capability(&mut node, &catalog(), "sms".to_owned());
    assert!(matches!(&node.kind, FunctionNodeKind::Capability { operation, .. } if operation.is_empty()));
    set_capability(&mut node, &catalog(), "unknown".to_owned());
    assert!(matches!(&node.kind, FunctionNodeKind::Capability { capability_id, operation } if capability_id == "unknown" && operation.is_empty()));
    set_capability_operation(&mut node, "verify".to_owned());
    assert!(matches!(&node.kind, FunctionNodeKind::Capability { operation, .. } if operation == "verify"));
    let mut other = FunctionNode { kind: FunctionNodeKind::Return, ..capability_node() };
    set_capability(&mut other, &catalog(), "mail".to_owned());
    assert!(matches!(other.kind, FunctionNodeKind::Return));
}

#[test]
fn templates_fill_each_placeholder() {
    let texts = vec!["Ada".to_owned(), "3".to_owned()];
    assert_eq!(format_template("Hi {0}, you have {1} tasks ({0})", &texts), "Hi Ada, you have 3 tasks (Ada)");
    assert_eq!(format_template("{2} stays", &texts), "{2} stays");
    assert_eq!(format_template("{0}", &["{1}".to_owned(), "x".to_owned()]), "x");
    assert_eq!(replace_text("aaa", "aa", "b"), "ba");
    assert_eq!(replace_text("", "a", "b"), "");
}

#[test]
fn equality_comparisons() {
    let a = JsonValue::Array(vec![JsonValue::Number(JsonNumber::PosInt(1)), JsonValue::String("x".to_owned())]);
    let b = JsonValue::Array(vec![JsonValue::Number(JsonNumber::PosInt(1)), JsonValue::String("x".to_owned())]);
    let c = JsonValue::Array(vec![JsonValue::Number(JsonNumber::PosInt(2)), JsonValue::String("x".to_owned())]);
    assert!(json_equal(&a, &b));
    assert!(!json_equal(&a, &c));
    assert_eq!(equality_compare("equal", &a, &b), Some(true));
    assert_eq!(equality_compare("notequal", &a, &c), Some(true));
    assert_eq!(equality_compare("greater", &a, &c), None);
    let zero = JsonValue::Number(JsonNumber::Float(0));
    let negative_zero = JsonValue::Number(JsonNumber::Float(0x8000_0000_0000_0000));
    assert!(json_equal(&zero, &negative_zero));
    assert!(!json_equal(&JsonValue::Null, &JsonValue::Bool(false)));
}

#[test]
fn object_fields_stay_in_key_order() {
    let mut entries: Vec<(String, JsonValue)> = Vec::new();
    object_insert(&mut entries, "b".to_owned(), JsonValue::Null);
    object_insert(&mut entries, "a".to_owned(), JsonValue::Bool(true));
    object_insert(&mut entries, "c".to_owned(), JsonValue::Null);
    object_insert(&mut entries, "b".to_owned(), JsonValue::Bool(false));
    let keys: Vec<&str> = entries.iter().map(|(k, _)| k.as_str()).collect();
    assert_eq!(keys, vec!["a", "b", "c"]);
    assert!(matches!(entries[1].1, JsonValue::Bool(false)));
    assert!(text_less("ab", "b"));
    assert!(text_less("a", "ab"));
    assert!(!text_less("b", "ab"));
    assert!(!text_less("a", "a"));
}

#[test]
fn integer_texts() {
    assert_eq!(parse_i64("-5"), Some(-5));
    assert_eq!(parse_i64("+7"), Some(7));
    assert_eq!(parse_i64("-"), None);
    assert_eq!(parse_i64("-+1"), None);
    assert_eq!(parse_i64(" 1"), None);
    assert_eq!(parse_i64("9223372036854775807"), Some(i64::MAX));
    assert_eq!(parse_i64("9223372036854775808"), None);
    assert_eq!(parse_i64("-9223372036854775808"), Some(i64::MIN));
    assert_eq!(parse_i64("-9223372036854775809"), None);
}

#[test]
fn constant_values_follow_their_type() {
    assert!(matches!(constant_value("-3", &ValueType::Integer), Some(JsonValue::Number(JsonNumber::NegInt(-3)))));
    assert!(matches!(constant_value("3", &ValueType::Integer), Some(JsonValue::Number(JsonNumber::PosInt(3)))));
    assert!(matches!(constant_value("three", &ValueType::Integer), Some(JsonValue::String(s)) if s == "three"));
    assert!(matches!(constant_value("true", &ValueType::Boolean), Some(JsonValue::Bool(true))));
    assert!(matches!(constant_value("True", &ValueType::Boolean), Some(JsonValue::String(_))));
    assert!(matches!(constant_value("x", &ValueType::Null), Some(JsonValue::Null)));
    assert!(constant_value("1.5", &ValueType::Decimal).is_none());
    assert!(matches!(constant_value("1.5", &ValueType::Text), Some(JsonValue::String(s)) if s == "1.5"));
}

#[test]
fn selection_falls_back_to_the_first_listed() {
    let listed = vec![id(3), id(5)];
    assert_eq!(current_selection(Some(id(5)), &listed), Some(id(5)));
    assert_eq!(current_selection(Some(id(9)), &listed), Some(id(3)));
    assert_eq!(current_selection(None, &listed), Some(id(3)));
    assert_eq!(current_selection(Some(id(3)), &[]), None);
}

#[test]
fn referenced_functions_cannot_be_deleted() {
    assert_eq!(function_delete_guard(0), (true, "删除函数".to_owned()));
    assert_eq!(function_delete_guard(12), (false, "该函数被 12 个函数节点调用，不能删除".to_owned()));
}

fn input(title: &str, path: &str, kind: PageRendererKind) -> PageEditorInput {
    PageEditorInput {
        title: title.to_owned(),
        route_path: path.to_owned(),
        renderer_kind: kind,
        table_model_id: "m".to_owned(),
        page_size: "20".to_owned(),
    }
}

fn pages() -> Vec<PageDefinition> {
    vec![PageDefinition { id: id(1), name: "orders".to_owned(), title: "Orders".to_owned() }]
}

fn routes() -> Vec<RouteDefinition> {
    vec![RouteDefinition { id: id(2), page_id: id(1), path: "/orders".to_owned() }]
}

fn create() -> PageEditorMode {
    PageEditorMode::Create { page_id: id(10), route_id: id(11), root_id: id(100), page_count: 1, route_count: 1 }
}

#[test]
fn page_editor_creates_a_page_and_its_route() {
    let r = page_editor_submit(&input("  Tickets ", " /tickets ", PageRendererKind::CrudTable), &create(), "tickets", &pages(), &routes(), None, None);
    let patches = r.expect("created");
    assert_eq!(patches.len(), 2);
    match &patches[0] {
        GraphPatch::Insert { parent_id, collection: ChildCollection::Pages, index: 1, entity: GraphEntity::Page(page) } => {
            assert_eq!(*parent_id, id(100));
            assert_eq!(page.id, id(10));
            assert_eq!(page.name, "tickets");
            assert_eq!(page.title, "Tickets");
            match &page.renderer {
                NewPageRenderer::Table(draft) => {
                    assert_eq!(draft.kind, PageRendererKind::CrudTable);
                    assert_eq!(draft.table_model_id, "m");
                    assert_eq!(draft.page_size, "20");
                }
                _ => panic!("a table page"),
            }
        }
        _ => panic!("the page comes first"),
    }
    match &patches[1] {
        GraphPatch::Insert { collection: ChildCollection::Routes, index: 1, entity: GraphEntity::Route(route), .. } => {
            assert_eq!(route.id, id(11));
            assert_eq!(route.name, "tickets");
            assert_eq!(route.path, "/tickets");
            assert_eq!(route.page_id, id(10));
        }
        _ => panic!("the route comes second"),
    }
    let menu_tree = page_editor_submit(&input("Menus", "/menus", PageRendererKind::MenuTree), &create(), "menus", &pages(), &routes(), None, None);
    assert!(matches!(&menu_tree.expect("created")[0], GraphPatch::Insert { entity: GraphEntity::Page(p), .. } if matches!(p.renderer, NewPageRenderer::MenuTree)));
}

#[test]
fn page_editor_renames_an_edited_page() {
    let edit = PageEditorMode::Edit { page_id: id(1), stable_name: "orders".to_owned() };
    let patches = page_editor_submit(&input("New title", "", PageRendererKind::Extension), &edit, "ignored", &pages(), &routes(), Some("bad".to_owned()), None).expect("renamed");
    assert_eq!(patches.len(), 1);
    assert!(matches!(&patches[0], GraphPatch::Rename { target_id, name, title: Some(t) } if *target_id == id(1) && name == "orders" && t == "New title"));
}

#[test]
fn page_editor_refusals() {
    let submit = |i: PageEditorInput, name: &str, path_error: Option<String>, table_errors: Option<Vec<String>>| {
        page_editor_submit(&i, &create(), name, &pages(), &routes(), path_error, table_errors).err()
    };
    assert_eq!(submit(input("  ", "/x", PageRendererKind::ConventionFile), "x", None, None), Some(Some("页面标题不能为空".to_owned())));
    assert_eq!(
        submit(input("!!", "/x", PageRendererKind::ConventionFile), "", None, None),
        Some(Some("页面标题无法生成有效标识，请包含中文、字母或数字".to_owned()))
    );
    assert_eq!(submit(input("Orders", "/x", PageRendererKind::ConventionFile), "orders", None, None), Some(Some("页面标识已存在: orders".to_owned())));
    assert_eq!(submit(input("X", "x", PageRendererKind::ConventionFile), "x", Some("路径必须以 / 开头".to_owned()), None), Some(Some("路径必须以 / 开头".to_owned())));
    assert_eq!(submit(input("X", " /orders", PageRendererKind::ConventionFile), "x", None, None), Some(Some("路由路径已存在: /orders".to_owned())));
    assert_eq!(submit(input("X", "/x", PageRendererKind::Extension), "x", None, None), Some(Some("扩展页面必须从 Admin Workbench 新建".to_owned())));
    assert_eq!(
        submit(input("X", "/x", PageRendererKind::TreeTable), "x", None, Some(vec!["请选择模型".to_owned(), "second".to_owned()])),
        Some(Some("请选择模型".to_owned()))
    );
    assert_eq!(submit(input("X", "/x", PageRendererKind::CrudTable), "x", None, Some(vec![])), Some(None));
    let edit = PageEditorMode::Edit { page_id: id(1), stable_name: "orders".to_owned() };
    assert!(page_editor_submit(&input("Orders", "", PageRendererKind::ConventionFile), &edit, "", &pages(), &routes(), None, None).is_ok());
}

fn menu(n: u128, children: Vec<MenuDefinition>) -> MenuDefinition {
    MenuDefinition {
        id: id(n),
        name: format!("m{n}"),
        title: format!("M{n}"),
        icon: None,
        page_id: None,
        enabled: true,
        children,
        required_permissions: Vec::new(),
        row_actions: MenuRowActions {
            detail: MenuActionAccess::Public,
            edit: MenuActionAccess::Hidden,
            delete: MenuActionAccess::Hidden,
        },
    }
}

#[test]
fn every_menu_is_offered_as_a_parent_when_none_moves() {
    let scene = menu(1, vec![menu(2, vec![menu(3, vec![])]), menu(4, vec![])]);
    let all = menu_parent_options(&scene, None);
    assert_eq!(all.len(), menu_descendant_count(&scene));
    let ids: Vec<SymbolId> = all.iter().map(|o| o.id).collect();
    assert_eq!(ids, vec![id(1), id(2), id(3), id(4)]);
    assert_eq!(menu_parent_options(&scene, Some(id(99))).len(), 4);
    assert_eq!(menu_parent_options(&scene, Some(id(2))).len(), 2);
}

#[test]
fn table_rows_place_children_under_their_menu() {
    let scene = menu(1, vec![menu(2, vec![menu(3, vec![])]), menu(4, vec![])]);
    let rows = menu_table_rows(&scene, 0, 0, id(100), ChildCollection::Menus, 1, &[]);
    assert_eq!(rows.len(), menu_descendant_count(&scene));
    let child = rows.iter().find(|r| r.menu.id == id(4)).expect("listed");
    assert_eq!((child.depth, child.position, child.parent_id, child.sibling_count), (1, 1, id(1), 2));
    assert_eq!(child.collection, ChildCollection::MenuChildren);
    let collapsed = menu_table_rows(&scene, 0, 0, id(100), ChildCollection::Menus, 1, &[id(2)]);
    assert_eq!(collapsed.len(), 3);
}

#[test]
fn default_kinds_carry_their_key_and_options_follow_them() {
    let function = FunctionDefinition {
        id: id(1),
        name: "f".to_owned(),
        inputs: vec![PortDefinition { id: id(5), name: "in".to_owned(), value_type: ValueType::Text }],
        outputs: Vec::new(),
        nodes: Vec::new(),
    };
    let catalog = catalog();
    let options = function_node_kind_options(id(9), &function, &[], &[], &[], &catalog);
    assert_eq!(options.len(), 24);
    for option in &options[..23] {
        let kind = default_function_node_kind(&option.value, id(9), &function, &[], &[], &[], &catalog);
        assert_eq!(option.disabled, kind.is_err(), "{}", option.value);
        if let Ok(kind) = kind {
            assert_eq!(function_node_kind_key(&kind), option.value);
        }
    }
    assert!(!options[23].disabled);
    let call = default_function_node_kind("capability", id(9), &function, &[], &[], &[], &catalog).expect("registered");
    assert_eq!(function_node_kind_key(&call), "capability");
}

#[test]
fn optional_numbers_round_trip() {
    for value in [None, Some(0), Some(7), Some(u32::MAX)] {
        assert_eq!(parse_optional_u32(&optional_u32(value)), value);
    }
    assert_eq!(parse_optional_u32(" 7 "), Some(7));
    assert_eq!(parse_optional_u32("-1"), None);
}

#[test]
fn batches_carry_their_url_and_payload() {
    let mut q: PatchQueue<Vec<u32>> = PatchQueue::new();
    q.submit(PendingPatch { api_base_url: "http://a".to_owned(), program_id: "p".to_owned(), base_version: 2, payload: vec![1, 2] });
    q.submit(PendingPatch { api_base_url: "http://b".to_owned(), program_id: "q".to_owned(), base_version: 5, payload: vec![3] });
    let first = q.next_batch().expect("queued");
    assert_eq!((first.api_base_url.as_str(), first.payload), ("http://a", vec![1, 2]));
    let second = q.next_batch().expect("queued");
    assert_eq!((second.api_base_url.as_str(), second.program_id.as_str(), second.payload), ("http://b", "q", vec![3]));
}

#[test]
fn compiled_compare_operators() {
    assert_eq!(compiled_compare_operator("greaterorequal"), Ok(CompareOperator::GreaterOrEqual));
    assert_eq!(compiled_compare_operator("contains"), Ok(CompareOperator::Contains));
    assert_eq!(compiled_compare_operator("greater_or_equal"), Err("未知比较运算: greater_or_equal".to_owned()));
}

#[test]
fn text_containment() {
    assert!(text_contains("工单管理", "管理"));
    assert!(text_contains("abc", ""));
    assert!(text_contains("", ""));
    assert!(!text_contains("abc", "abcd"));
    assert!(!text_contains("abc", "ac"));
}

#[test]
fn application_title_is_trimmed_and_required() {
    assert_eq!(application_title_submit(id(1), "   ").err(), Some("应用标题不能为空".to_owned()));
    let patches = application_title_submit(id(1), " 工单 ").expect("valid");
    assert_eq!(patches.len(), 1);
    assert!(matches!(&patches[0], GraphPatch::SetProperty { target_id, property: EditableProperty::Title, value: PatchValue::Json(JsonValue::String(t)) } if *target_id == id(1) && t == "工单"));
}

#[test]
fn deleted_menus_must_still_exist() {
    let menus = vec![menu(1, vec![menu(2, vec![])])];
    let row = admin_menu_delete_row(&menus, id(100), id(2)).expect("listed");
    assert_eq!((row.menu.id, row.depth, row.parent_id), (id(2), 1, id(1)));
    assert_eq!(admin_menu_delete_row(&menus, id(100), id(9)).err(), Some("菜单已经不存在".to_owned()));
}

#[test]
fn used_permissions_cannot_be_deleted() {
    assert_eq!(permission_delete_guard(0, "orders.read"), (true, "删除权限 orders.read".to_owned()));
    assert_eq!(permission_delete_guard(3, "orders.read"), (false, "该权限被 3 处定义引用，不能删除".to_owned()));
}

#[test]
fn length_rules_take_typed_bounds() {
    let rule = ValidationRule { field_id: id(5), rule: ValidationRuleKind::MinLength { value: 1 }, message: "太短".to_owned() };
    let mut node = FunctionNode {
        id: id(1),
        name: "check".to_owned(),
        kind: FunctionNodeKind::ValidateForm { rules: vec![rule] },
        editor: FunctionNodeEditor { x: 0, y: 0 },
    };
    set_validation_rule_length(&mut node, 0, "12", true);
    assert!(matches!(&node.kind, FunctionNodeKind::ValidateForm { rules } if matches!(rules[0].rule, ValidationRuleKind::MaxLength { value: 12 }) && rules[0].message == "太短"));
    set_validation_rule_length(&mut node, 0, "x", false);
    assert!(matches!(&node.kind, FunctionNodeKind::ValidateForm { rules } if matches!(rules[0].rule, ValidationRuleKind::MaxLength { value: 12 })));
    set_validation_rule_length(&mut node, 0, "3", false);
    assert!(matches!(&node.kind, FunctionNodeKind::ValidateForm { rules } if matches!(rules[0].rule, ValidationRuleKind::MinLength { value: 3 })));
}

#[test]
fn parent_options_carry_their_depth() {
    let scene = menu(1, vec![menu(2, vec![menu(3, vec![])]), menu(4, vec![])]);
    let depths: Vec<(SymbolId, usize, String)> = menu_parent_options(&scene, None).iter().map(|o| (o.id, o.depth, o.title.clone())).collect();
    assert_eq!(depths, vec![(id(1), 0, "M1".to_owned()), (id(2), 1, "M2".to_owned()), (id(3), 2, "M3".to_owned()), (id(4), 1, "M4".to_owned())]);
    let rows = menu_table_rows(&scene, 0, 0, id(100), ChildCollection::Menus, 1, &[]);
    assert_eq!(rows.iter().map(|r| (r.menu.id, r.depth)).collect::<Vec<_>>(), vec![(id(1), 0), (id(2), 1), (id(3), 2), (id(4), 1)]);
}
