use studio::definition::PermissionDefinition;
use studio::form::{
    form_text, function_permission_input_name, function_permissions_from_form, menu_action_from_form,
    menu_action_from_value, menu_action_options, menu_action_value, menu_permission_input_name,
    menu_permissions_from_form, route_permission_input_name, route_permissions_from_form, FormValues,
};
use studio::menu::{
    collect_menu_ids, collect_menu_parent_options, collect_menus_for_page, contains_id, find_menu_definition,
    find_menu_table_row, menu_child_count, menu_descendant_count, menu_name_exists, menu_page_ids,
    menu_parent_option_label, menu_parent_options, menu_table_rows, unique_menu_for_page, MenuActionAccess,
    MenuDefinition, MenuParentOption, MenuRowActions,
};
use studio::patch::ChildCollection;
use studio::symbol::SymbolId;

fn id(n: u128) -> SymbolId {
    SymbolId::from_u128(n)
}

fn menu(n: u128, name: &str, page: Option<u128>, children: Vec<MenuDefinition>) -> MenuDefinition {
    MenuDefinition {
        id: id(n),
        name: name.to_owned(),
        title: name.to_uppercase(),
        icon: None,
        page_id: page.map(id),
        enabled: true,
        children,
        required_permissions: Vec::new(),
        row_actions: MenuRowActions {
            detail: MenuActionAccess::Public,
            edit: MenuActionAccess::Hidden,
            delete: MenuActionAccess::Hidden,
        },
    }
}

/// scene(1) -> [a(2, page 20) -> [b(3, page 21)], c(4, page 20)]
fn scene() -> MenuDefinition {
    menu(1, "scene", None, vec![menu(2, "a", Some(20), vec![menu(3, "b", Some(21), vec![])]), menu(4, "c", Some(20), vec![])])
}

#[test]
fn counts_ids_and_lookup() {
    let s = scene();
    assert_eq!(menu_descendant_count(&s), 4);
    let mut ids = Vec::new();
    collect_menu_ids(&s, &mut ids);
    assert_eq!(ids, vec![id(1), id(2), id(3), id(4)]);
    assert_eq!(find_menu_definition(&s, id(3)).map(|m| m.name.as_str()), Some("b"));
    assert!(find_menu_definition(&s, id(9)).is_none());
    let menus = vec![s];
    assert_eq!(menu_child_count(&menus, id(2)), Some(1));
    assert_eq!(menu_child_count(&menus, id(1)), Some(2));
    assert_eq!(menu_child_count(&menus, id(9)), None);
    assert!(contains_id(&[id(5), id(6)], id(6)));
    assert!(!contains_id(&[], id(6)));
}

#[test]
fn names_pages_and_unique_menu() {
    let menus = vec![scene()];
    assert!(menu_name_exists(&menus, "b", None));
    assert!(!menu_name_exists(&menus, "b", Some(id(3))));
    assert!(!menu_name_exists(&menus, "zzz", None));
    assert_eq!(menu_page_ids(&menus[0]), vec![id(20), id(21), id(20)]);
    let mut found = Vec::new();
    collect_menus_for_page(&menus, id(20), &mut found);
    assert_eq!(found.iter().map(|m| m.id).collect::<Vec<_>>(), vec![id(2), id(4)]);
    assert!(unique_menu_for_page(&menus, id(20)).is_none());
    assert_eq!(unique_menu_for_page(&menus, id(21)).map(|m| m.id), Some(id(3)));
    assert!(unique_menu_for_page(&menus, id(22)).is_none());
}

#[test]
fn parent_options_leave_out_the_moved_subtree() {
    let s = scene();
    let options = menu_parent_options(&s, Some(id(2)));
    assert_eq!(options.iter().map(|o| (o.id, o.depth)).collect::<Vec<_>>(), vec![(id(1), 0), (id(4), 1)]);
    let all = menu_parent_options(&s, None);
    assert_eq!(all.iter().map(|o| (o.id, o.depth)).collect::<Vec<_>>(), vec![(id(1), 0), (id(2), 1), (id(3), 2), (id(4), 1)]);
    let mut direct = Vec::new();
    collect_menu_parent_options(&s, 3, &[id(3)], &mut direct);
    assert_eq!(direct.iter().map(|o| o.depth).collect::<Vec<_>>(), vec![3, 4, 4]);
    let label = menu_parent_option_label(&MenuParentOption { id: id(3), name: "b".to_owned(), title: "B".to_owned(), depth: 2 });
    assert_eq!(label, "    B · b");
}

#[test]
fn table_rows_follow_the_tree() {
    let s = scene();
    let rows = menu_table_rows(&s, 0, 0, id(100), ChildCollection::Menus, 1, &[]);
    assert_eq!(
        rows.iter().map(|r| (r.menu.id, r.depth, r.position, r.parent_id, r.sibling_count)).collect::<Vec<_>>(),
        vec![(id(1), 0, 0, id(100), 1), (id(2), 1, 0, id(1), 2), (id(3), 2, 0, id(2), 1), (id(4), 1, 1, id(1), 2)]
    );
    assert_eq!(rows[1].collection, ChildCollection::MenuChildren);
    let collapsed = menu_table_rows(&s, 0, 0, id(100), ChildCollection::Menus, 1, &[id(2)]);
    assert_eq!(collapsed.iter().map(|r| r.menu.id).collect::<Vec<_>>(), vec![id(1), id(2), id(4)]);
    let menus = vec![scene(), menu(5, "other", None, vec![])];
    let row = find_menu_table_row(&menus, id(100), id(5)).expect("found");
    assert_eq!((row.depth, row.position, row.sibling_count, row.collection), (0, 1, 2, ChildCollection::Menus));
    assert!(find_menu_table_row(&menus, id(100), id(77)).is_none());
}

fn form(entries: &[(&str, &str)]) -> FormValues {
    FormValues { entries: entries.iter().map(|(k, v)| (k.to_string(), v.to_string())).collect() }
}

fn permission(n: u128) -> PermissionDefinition {
    PermissionDefinition { id: id(n), name: format!("p{n}"), title: format!("P{n}") }
}

#[test]
fn form_text_takes_the_first_value() {
    let f = form(&[("a", "1"), ("a", "2")]);
    assert_eq!(form_text(&f, "a"), "1");
    assert_eq!(form_text(&f, "b"), "");
}

#[test]
fn checked_permissions_are_read_back() {
    let permissions = vec![permission(1), permission(2), permission(3)];
    assert_eq!(menu_permission_input_name(id(1)), "menu_permission_00000000-0000-0000-0000-000000000001");
    assert_eq!(function_permission_input_name(id(2)), "function_permission_00000000-0000-0000-0000-000000000002");
    assert_eq!(route_permission_input_name(id(3)), "route_permission_00000000-0000-0000-0000-000000000003");
    let f = form(&[
        ("menu_permission_00000000-0000-0000-0000-000000000003", "on"),
        ("menu_permission_00000000-0000-0000-0000-000000000001", "on"),
        ("menu_permission_00000000-0000-0000-0000-000000000002", ""),
        ("route_permission_00000000-0000-0000-0000-000000000002", "on"),
    ]);
    assert_eq!(menu_permissions_from_form(&f, &permissions), vec![id(1), id(3)]);
    assert_eq!(route_permissions_from_form(&f, &permissions), vec![id(2)]);
    assert!(function_permissions_from_form(&f, &permissions).is_empty());
}

#[test]
fn menu_actions_round_trip() {
    for access in [MenuActionAccess::Hidden, MenuActionAccess::Public, MenuActionAccess::Permission { permission_id: id(42) }] {
        assert_eq!(menu_action_from_value(&menu_action_value(&access)), access);
    }
    assert_eq!(menu_action_value(&MenuActionAccess::Permission { permission_id: id(42) }), "permission:00000000-0000-0000-0000-00000000002a");
    assert_eq!(menu_action_from_value("permission:nope"), MenuActionAccess::Hidden);
    assert_eq!(menu_action_from_value("anything"), MenuActionAccess::Hidden);
    let f = form(&[("detail", "public")]);
    assert_eq!(menu_action_from_form(&f, "detail"), MenuActionAccess::Public);
    assert_eq!(menu_action_from_form(&f, "edit"), MenuActionAccess::Hidden);
    let options = menu_action_options("permission:00000000-0000-0000-0000-000000000001", &[permission(1), permission(2)]);
    assert_eq!(options.iter().map(|o| o.value.as_str()).collect::<Vec<_>>(), vec![
        "hidden",
        "public",
        "permission:00000000-0000-0000-0000-000000000001",
        "permission:00000000-0000-0000-0000-000000000002",
    ]);
    assert_eq!(options.iter().filter(|o| o.selected).count(), 1);
    assert!(options[2].selected);
    assert_eq!(options[3].label, "p2 · P2");
}
