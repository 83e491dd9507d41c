//! The menu tree of an application: scenes at the root, menus below them.

use vstd::prelude::*;
use crate::symbol::SymbolId;
use vstd::string::StringExecFns;

verus! {

/// Who may use a row action of a menu's table.
#[derive(Clone, Copy, Debug, PartialEq, Eq, Structural)]
pub enum MenuActionAccess {
    Hidden,
    Public,
    Permission { permission_id: SymbolId },
}

/// Access of the detail, edit and delete actions of a menu's rows.
#[derive(Clone, Copy, Debug, PartialEq, Eq, Structural)]
pub struct MenuRowActions {
    pub detail: MenuActionAccess,
    pub edit: MenuActionAccess,
    pub delete: MenuActionAccess,
}

/// A node of the menu tree.
pub struct MenuDefinition {
    pub id: SymbolId,
    pub name: String,
    pub title: String,
    pub icon: Option<String>,
    pub page_id: Option<SymbolId>,
    pub enabled: bool,
    pub children: Vec<MenuDefinition>,
    pub required_permissions: Vec<SymbolId>,
    pub row_actions: MenuRowActions,
}

/// The mathematical value of a menu node.
pub ghost struct MenuView {
    pub id: SymbolId,
    pub name: Seq<char>,
    pub title: Seq<char>,
    pub icon: Option<Seq<char>>,
    pub page_id: Option<SymbolId>,
    pub enabled: bool,
    pub children: Seq<MenuView>,
    pub required_permissions: Seq<SymbolId>,
    pub row_actions: MenuRowActions,
}

pub open spec fn opt_text_view(t: Option<String>) -> Option<Seq<char>> {
    match t {
        Some(s) => Some(s@),
        None => None,
    }
}

pub open spec fn menu_view(m: MenuDefinition) -> MenuView
    decreases m,
{
    MenuView {
        id: m.id,
        name: m.name@,
        title: m.title@,
        icon: opt_text_view(m.icon),
        page_id: m.page_id,
        enabled: m.enabled,
        children: menus_view(m.children@),
        required_permissions: m.required_permissions@,
        row_actions: m.row_actions,
    }
}

pub open spec fn menus_view(ms: Seq<MenuDefinition>) -> Seq<MenuView>
    decreases ms,
{
    if ms.len() == 0 {
        Seq::empty()
    } else {
        menus_view(ms.subrange(0, ms.len() - 1)).push(menu_view(ms[ms.len() - 1]))
    }
}

impl View for MenuDefinition {
    type V = MenuView;

    open spec fn view(&self) -> MenuView {
        menu_view(*self)
    }
}

} // verus!

verus! {

/// The nodes of a menu tree in pre-order: the node, then each child's tree in turn.
pub open spec fn tree_nodes(v: MenuView) -> Seq<MenuView>
    decreases v,
{
    seq![v] + forest_nodes(v.children)
}

/// The nodes of a sequence of menu trees in pre-order.
pub open spec fn forest_nodes(vs: Seq<MenuView>) -> Seq<MenuView>
    decreases vs,
{
    if vs.len() == 0 {
        Seq::empty()
    } else {
        forest_nodes(vs.subrange(0, vs.len() - 1)) + tree_nodes(vs[vs.len() - 1])
    }
}

pub proof fn lemma_menus_view(ms: Seq<MenuDefinition>)
    ensures
        menus_view(ms).len() == ms.len(),
        forall|i: int| 0 <= i < ms.len() ==> #[trigger] menus_view(ms)[i] == ms[i]@,
    decreases ms.len(),
{
    if ms.len() > 0 {
        lemma_menus_view(ms.subrange(0, ms.len() - 1));
    }
}

/// Pre-order of a concatenation is the concatenation of the pre-orders.
pub proof fn lemma_forest_nodes_append(a: Seq<MenuView>, b: Seq<MenuView>)
    ensures
        forest_nodes(a + b) == forest_nodes(a) + forest_nodes(b),
    decreases b.len(),
{
    if b.len() == 0 {
        assert(a + b =~= a);
        assert(forest_nodes(b) =~= Seq::<MenuView>::empty());
    } else {
        let b1 = b.subrange(0, b.len() - 1);
        lemma_forest_nodes_append(a, b1);
        assert((a + b).subrange(0, (a + b).len() - 1) =~= a + b1);
        assert((a + b)[(a + b).len() - 1] == b[b.len() - 1]);
    }
}

/// Pre-order of the first `i + 1` trees extends that of the first `i` trees.
pub proof fn lemma_forest_nodes_take_step(vs: Seq<MenuView>, i: int)
    requires
        0 <= i < vs.len(),
    ensures
        forest_nodes(vs.take(i + 1)) == forest_nodes(vs.take(i)) + tree_nodes(vs[i]),
{
    assert(vs.take(i + 1).subrange(0, i) =~= vs.take(i));
}

/// The pre-order of a prefix of the trees is a prefix of the whole pre-order.
pub proof fn lemma_forest_nodes_prefix(vs: Seq<MenuView>, i: int)
    requires
        0 <= i <= vs.len(),
    ensures
        forest_nodes(vs) == forest_nodes(vs.take(i)) + forest_nodes(vs.skip(i)),
{
    assert(vs =~= vs.take(i) + vs.skip(i));
    lemma_forest_nodes_append(vs.take(i), vs.skip(i));
}

pub proof fn lemma_forest_nodes_full(vs: Seq<MenuView>)
    ensures
        vs.take(vs.len() as int) == vs,
{
    assert(vs.take(vs.len() as int) =~= vs);
}

/// Number of menus in the tree rooted at `menu`, `menu` itself included.
pub fn menu_descendant_count(menu: &MenuDefinition) -> (count: usize)
    requires
        tree_nodes(menu@).len() <= usize::MAX,
    ensures
        count == tree_nodes(menu@).len(),
    decreases menu,
{
    proof {
        lemma_menus_view(menu.children@);
    }
    let ghost cs = menu@.children;
    let mut total: usize = 1;
    let mut i: usize = 0;
    while i < menu.children.len()
        invariant
            i <= menu.children.len(),
            cs == menu@.children,
            cs.len() == menu.children@.len(),
            forall|j: int| 0 <= j < cs.len() ==> #[trigger] cs[j] == menu.children@[j]@,
            tree_nodes(menu@).len() <= usize::MAX,
            total == 1 + forest_nodes(cs.take(i as int)).len(),
        decreases menu.children.len() - i,
    {
        proof {
            lemma_forest_nodes_take_step(cs, i as int);
            lemma_forest_nodes_prefix(cs, i as int + 1);
        }
        let c = menu_descendant_count(&menu.children[i]);
        total = total + c;
        i = i + 1;
    }
    proof {
        lemma_forest_nodes_full(cs);
    }
    total
}

} // verus!

verus! {

/// The identifiers of a sequence of menu nodes.
pub open spec fn node_ids(ns: Seq<MenuView>) -> Seq<SymbolId> {
    ns.map_values(|n: MenuView| n.id)
}

/// The first node with identifier `target`, scanning from the front.
pub open spec fn first_with_id(ns: Seq<MenuView>, target: SymbolId) -> Option<MenuView>
    decreases ns.len(),
{
    if ns.len() == 0 {
        None
    } else if ns[0].id == target {
        Some(ns[0])
    } else {
        first_with_id(ns.skip(1), target)
    }
}

pub proof fn lemma_first_with_id_append(a: Seq<MenuView>, b: Seq<MenuView>, target: SymbolId)
    ensures
        first_with_id(a + b, target) == (match first_with_id(a, target) {
            Some(x) => Some(x),
            None => first_with_id(b, target),
        }),
    decreases a.len(),
{
    if a.len() == 0 {
        assert(a + b =~= b);
    } else {
        assert((a + b)[0] == a[0]);
        assert((a + b).skip(1) =~= a.skip(1) + b);
        lemma_first_with_id_append(a.skip(1), b, target);
    }
}

/// Without a match, no node of the sequence has identifier `target`.
pub proof fn lemma_first_with_id_none(ns: Seq<MenuView>, target: SymbolId)
    ensures
        first_with_id(ns, target) is None <==> (forall|k: int| 0 <= k < ns.len() ==> #[trigger] ns[k].id != target),
        first_with_id(ns, target) matches Some(x) ==> x.id == target,
    decreases ns.len(),
{
    if ns.len() > 0 {
        lemma_first_with_id_none(ns.skip(1), target);
        if first_with_id(ns, target) is None {
            assert forall|k: int| 0 <= k < ns.len() implies #[trigger] ns[k].id != target by {
                if k > 0 {
                    assert(ns[k] == ns.skip(1)[k - 1]);
                }
            }
        } else if ns[0].id != target {
            let x = first_with_id(ns, target)->0;
            let k = choose|k: int| 0 <= k < ns.skip(1).len() && #[trigger] ns.skip(1)[k].id == target;
            assert(ns[k + 1] == ns.skip(1)[k]);
        }
    }
}

impl MenuDefinition {
    /// A copy of the whole tree.
    pub fn deep_clone(&self) -> (copy: MenuDefinition)
        ensures
            copy@ == self@,
        decreases self,
    {
        proof {
            lemma_menus_view(self.children@);
        }
        let icon = match &self.icon {
            Some(icon) => Some(icon.clone()),
            None => None,
        };
        let mut permissions: Vec<SymbolId> = Vec::new();
        let mut i: usize = 0;
        while i < self.required_permissions.len()
            invariant
                i <= self.required_permissions.len(),
                permissions@ == self.required_permissions@.take(i as int),
            decreases self.required_permissions.len() - i,
        {
            permissions.push(self.required_permissions[i]);
            i = i + 1;
            proof {
                assert(permissions@ =~= self.required_permissions@.take(i as int));
            }
        }
        assert(permissions@ =~= self.required_permissions@);
        let mut children: Vec<MenuDefinition> = Vec::new();
        let mut j: usize = 0;
        while j < self.children.len()
            invariant
                j <= self.children.len(),
                children@.len() == j,
                forall|k: int| 0 <= k < j ==> #[trigger] children@[k]@ == self.children@[k]@,
            decreases self.children.len() - j,
        {
            let child = self.children[j].deep_clone();
            children.push(child);
            j = j + 1;
        }
        let copy = MenuDefinition {
            id: self.id,
            name: self.name.clone(),
            title: self.title.clone(),
            icon,
            page_id: self.page_id,
            enabled: self.enabled,
            children,
            required_permissions: permissions,
            row_actions: self.row_actions,
        };
        proof {
            lemma_menus_view(copy.children@);
            assert(menus_view(copy.children@) =~= menus_view(self.children@));
        }
        copy
    }
}

/// Adds the identifiers of the tree rooted at `menu` to `ids`, in pre-order.
pub fn collect_menu_ids(menu: &MenuDefinition, ids: &mut Vec<SymbolId>)
    ensures
        final(ids)@ == old(ids)@ + node_ids(tree_nodes(menu@)),
    decreases menu,
{
    proof {
        lemma_menus_view(menu.children@);
    }
    let ghost cs = menu@.children;
    let ghost start = ids@;
    ids.push(menu.id);
    let mut i: usize = 0;
    while i < menu.children.len()
        invariant
            i <= menu.children.len(),
            cs == menu@.children,
            cs.len() == menu.children@.len(),
            forall|j: int| 0 <= j < cs.len() ==> #[trigger] cs[j] == menu.children@[j]@,
            ids@ == start + seq![menu.id] + node_ids(forest_nodes(cs.take(i as int))),
        decreases menu.children.len() - i,
    {
        proof {
            lemma_forest_nodes_take_step(cs, i as int);
        }
        collect_menu_ids(&menu.children[i], ids);
        i = i + 1;
        proof {
            assert(ids@ =~= start + seq![menu.id] + node_ids(forest_nodes(cs.take(i as int))));
        }
    }
    proof {
        lemma_forest_nodes_full(cs);
        assert(ids@ =~= start + node_ids(tree_nodes(menu@)));
    }
}

/// The first menu, in pre-order, of the tree rooted at `menu` whose identifier is `target`.
pub fn find_menu_definition<'a>(menu: &'a MenuDefinition, target: SymbolId) -> (found: Option<&'a MenuDefinition>)
    ensures
        match found {
            Some(m) => first_with_id(tree_nodes(menu@), target) == Some(m@),
            None => first_with_id(tree_nodes(menu@), target) is None,
        },
    decreases menu,
{
    proof {
        lemma_menus_view(menu.children@);
        lemma_first_with_id_append(seq![menu@], forest_nodes(menu@.children), target);
    }
    if menu.id == target {
        return Some(menu);
    }
    assert(first_with_id(seq![menu@], target) is None) by {
        assert(seq![menu@].skip(1) =~= Seq::<MenuView>::empty());
        reveal_with_fuel(first_with_id, 2);
    }
    let ghost cs = menu@.children;
    let mut i: usize = 0;
    while i < menu.children.len()
        invariant
            i <= menu.children.len(),
            menu.id != target,
            cs == menu@.children,
            cs.len() == menu.children@.len(),
            forall|j: int| 0 <= j < cs.len() ==> #[trigger] cs[j] == menu.children@[j]@,
            first_with_id(forest_nodes(cs.take(i as int)), target) is None,
            first_with_id(tree_nodes(menu@), target) == first_with_id(forest_nodes(cs), target),
        decreases menu.children.len() - i,
    {
        proof {
            lemma_forest_nodes_take_step(cs, i as int);
            lemma_forest_nodes_prefix(cs, i as int + 1);
            lemma_first_with_id_append(forest_nodes(cs.take(i as int)), tree_nodes(cs[i as int]), target);
            lemma_first_with_id_append(forest_nodes(cs.take(i as int + 1)), forest_nodes(cs.skip(i as int + 1)), target);
        }
        let found = find_menu_definition(&menu.children[i], target);
        match found {
            Some(m) => {
                return Some(m);
            },
            None => {},
        }
        i = i + 1;
    }
    proof {
        lemma_forest_nodes_full(cs);
    }
    None
}

} // verus!

verus! {

/// Whether some node of `ns` satisfies `p`.
pub open spec fn any_node(ns: Seq<MenuView>, p: spec_fn(MenuView) -> bool) -> bool {
    exists|k: int| 0 <= k < ns.len() && #[trigger] p(ns[k])
}

pub proof fn lemma_any_node_append(a: Seq<MenuView>, b: Seq<MenuView>, p: spec_fn(MenuView) -> bool)
    ensures
        any_node(a + b, p) == (any_node(a, p) || any_node(b, p)),
{
    if any_node(a + b, p) {
        let k = choose|k: int| 0 <= k < (a + b).len() && #[trigger] p((a + b)[k]);
        if k < a.len() {
            assert(p(a[k]));
        } else {
            assert(p(b[k - a.len()]));
        }
    }
    if any_node(a, p) {
        let k = choose|k: int| 0 <= k < a.len() && #[trigger] p(a[k]);
        assert(p((a + b)[k]));
    }
    if any_node(b, p) {
        let k = choose|k: int| 0 <= k < b.len() && #[trigger] p(b[k]);
        assert(p((a + b)[k + a.len()]));
    }
}

pub proof fn lemma_any_node_single(v: MenuView, p: spec_fn(MenuView) -> bool)
    ensures
        any_node(seq![v], p) == p(v),
{
    if p(v) {
        assert(p(seq![v][0]));
    }
}

pub proof fn lemma_menus_view_push(ms: Seq<MenuDefinition>, m: MenuDefinition)
    ensures
        menus_view(ms.push(m)) == menus_view(ms).push(m@),
{
    assert(ms.push(m).subrange(0, ms.len() as int) =~= ms);
}

/// The page identifiers of a sequence of nodes, in order.
pub open spec fn page_ids_of(ns: Seq<MenuView>) -> Seq<SymbolId>
    decreases ns.len(),
{
    if ns.len() == 0 {
        Seq::empty()
    } else {
        page_ids_of(ns.subrange(0, ns.len() - 1)) + match ns[ns.len() - 1].page_id {
            Some(p) => seq![p],
            None => Seq::empty(),
        }
    }
}

pub proof fn lemma_page_ids_of_append(a: Seq<MenuView>, b: Seq<MenuView>)
    ensures
        page_ids_of(a + b) == page_ids_of(a) + page_ids_of(b),
    decreases b.len(),
{
    if b.len() == 0 {
        assert(a + b =~= a);
        assert(page_ids_of(a) + page_ids_of(b) =~= page_ids_of(a));
    } else {
        let b1 = b.subrange(0, b.len() - 1);
        lemma_page_ids_of_append(a, b1);
        assert((a + b).subrange(0, (a + b).len() - 1) =~= a + b1);
        assert((a + b)[(a + b).len() - 1] == b[b.len() - 1]);
        assert(page_ids_of(a + b) =~= page_ids_of(a) + page_ids_of(b));
    }
}

/// The nodes of `ns` that open page `page_id`, in order.
pub open spec fn nodes_with_page(ns: Seq<MenuView>, page_id: SymbolId) -> Seq<MenuView>
    decreases ns.len(),
{
    if ns.len() == 0 {
        Seq::empty()
    } else {
        nodes_with_page(ns.subrange(0, ns.len() - 1), page_id) + if ns[ns.len() - 1].page_id
            == Some(page_id) {
            seq![ns[ns.len() - 1]]
        } else {
            Seq::empty()
        }
    }
}

pub proof fn lemma_nodes_with_page_append(a: Seq<MenuView>, b: Seq<MenuView>, page_id: SymbolId)
    ensures
        nodes_with_page(a + b, page_id) == nodes_with_page(a, page_id) + nodes_with_page(b, page_id),
    decreases b.len(),
{
    if b.len() == 0 {
        assert(a + b =~= a);
        assert(nodes_with_page(a, page_id) + nodes_with_page(b, page_id) =~= nodes_with_page(a, page_id));
    } else {
        let b1 = b.subrange(0, b.len() - 1);
        lemma_nodes_with_page_append(a, b1, page_id);
        assert((a + b).subrange(0, (a + b).len() - 1) =~= a + b1);
        assert((a + b)[(a + b).len() - 1] == b[b.len() - 1]);
        assert(nodes_with_page(a + b, page_id) =~= nodes_with_page(a, page_id) + nodes_with_page(b, page_id));
    }
}

/// Number of children of the first menu, in pre-order over `menus`, whose identifier is `target`.
pub fn menu_child_count(menus: &[MenuDefinition], target: SymbolId) -> (count: Option<usize>)
    ensures
        count == (match first_with_id(forest_nodes(menus_view(menus@)), target) {
            Some(v) => Some(v.children.len() as usize),
            None => None,
        }),
{
    proof {
        lemma_menus_view(menus@);
    }
    let ghost vs = menus_view(menus@);
    let mut i: usize = 0;
    while i < menus.len()
        invariant
            i <= menus.len(),
            vs == menus_view(menus@),
            vs.len() == menus@.len(),
            forall|j: int| 0 <= j < vs.len() ==> #[trigger] vs[j] == menus@[j]@,
            first_with_id(forest_nodes(vs.take(i as int)), target) is None,
        decreases menus.len() - i,
    {
        proof {
            lemma_forest_nodes_take_step(vs, i as int);
            lemma_forest_nodes_prefix(vs, i as int + 1);
            lemma_first_with_id_append(forest_nodes(vs.take(i as int)), tree_nodes(vs[i as int]), target);
            lemma_first_with_id_append(forest_nodes(vs.take(i as int + 1)), forest_nodes(vs.skip(i as int + 1)), target);
        }
        match find_menu_definition(&menus[i], target) {
            Some(m) => {
                proof {
                    lemma_menus_view(m.children@);
                }
                return Some(m.children.len());
            },
            None => {},
        }
        i = i + 1;
    }
    proof {
        lemma_forest_nodes_full(vs);
    }
    None
}

pub open spec fn named_like(name: Seq<char>, excluded_id: Option<SymbolId>) -> spec_fn(MenuView) -> bool {
    |n: MenuView| n.name == name && Some(n.id) != excluded_id
}

fn tree_name_exists(menu: &MenuDefinition, name: &str, excluded_id: Option<SymbolId>) -> (exists: bool)
    ensures
        exists == any_node(tree_nodes(menu@), named_like(name@, excluded_id)),
    decreases menu,
{
    proof {
        lemma_menus_view(menu.children@);
    }
    let ghost p = named_like(name@, excluded_id);
    let ghost cs = menu@.children;
    proof {
        lemma_any_node_append(seq![menu@], forest_nodes(cs), p);
        lemma_any_node_single(menu@, p);
    }
    let differs = match excluded_id {
        Some(id) => id != menu.id,
        None => true,
    };
    if differs && crate::text::text_eq(menu.name.as_str(), name) {
        return true;
    }
    let mut i: usize = 0;
    while i < menu.children.len()
        invariant
            i <= menu.children.len(),
            cs == menu@.children,
            cs.len() == menu.children@.len(),
            forall|j: int| 0 <= j < cs.len() ==> #[trigger] cs[j] == menu.children@[j]@,
            !p(menu@),
            p == named_like(name@, excluded_id),
            !any_node(forest_nodes(cs.take(i as int)), p),
            any_node(tree_nodes(menu@), p) == any_node(forest_nodes(cs), p),
        decreases menu.children.len() - i,
    {
        proof {
            lemma_forest_nodes_take_step(cs, i as int);
            lemma_forest_nodes_prefix(cs, i as int + 1);
            lemma_any_node_append(forest_nodes(cs.take(i as int)), tree_nodes(cs[i as int]), p);
            lemma_any_node_append(forest_nodes(cs.take(i as int + 1)), forest_nodes(cs.skip(i as int + 1)), p);
        }
        if tree_name_exists(&menu.children[i], name, excluded_id) {
            return true;
        }
        i = i + 1;
    }
    proof {
        lemma_forest_nodes_full(cs);
    }
    false
}

/// Whether a menu anywhere below `menus`, other than `excluded_id`, is named `name`.
pub fn menu_name_exists(menus: &[MenuDefinition], name: &str, excluded_id: Option<SymbolId>) -> (exists: bool)
    ensures
        exists == any_node(forest_nodes(menus_view(menus@)), named_like(name@, excluded_id)),
{
    proof {
        lemma_menus_view(menus@);
    }
    let ghost p = named_like(name@, excluded_id);
    let ghost vs = menus_view(menus@);
    let mut i: usize = 0;
    while i < menus.len()
        invariant
            i <= menus.len(),
            vs == menus_view(menus@),
            vs.len() == menus@.len(),
            forall|j: int| 0 <= j < vs.len() ==> #[trigger] vs[j] == menus@[j]@,
            !any_node(forest_nodes(vs.take(i as int)), p),
            p == named_like(name@, excluded_id),
        decreases menus.len() - i,
    {
        proof {
            lemma_forest_nodes_take_step(vs, i as int);
            lemma_forest_nodes_prefix(vs, i as int + 1);
            lemma_any_node_append(forest_nodes(vs.take(i as int)), tree_nodes(vs[i as int]), p);
            lemma_any_node_append(forest_nodes(vs.take(i as int + 1)), forest_nodes(vs.skip(i as int + 1)), p);
        }
        if tree_name_exists(&menus[i], name, excluded_id) {
            return true;
        }
        i = i + 1;
    }
    proof {
        lemma_forest_nodes_full(vs);
    }
    false
}

/// The pages opened by the tree rooted at `menu`, in pre-order.
pub fn menu_page_ids(menu: &MenuDefinition) -> (ids: Vec<SymbolId>)
    ensures
        ids@ == page_ids_of(tree_nodes(menu@)),
    decreases menu,
{
    proof {
        lemma_menus_view(menu.children@);
        lemma_page_ids_of_append(seq![menu@], forest_nodes(menu@.children));
        reveal_with_fuel(page_ids_of, 2);
        assert(seq![menu@].subrange(0, 0) =~= Seq::<MenuView>::empty());
    }
    let ghost cs = menu@.children;
    let mut ids: Vec<SymbolId> = Vec::new();
    match menu.page_id {
        Some(p) => ids.push(p),
        None => {},
    }
    assert(ids@ =~= page_ids_of(seq![menu@]));
    let mut i: usize = 0;
    while i < menu.children.len()
        invariant
            i <= menu.children.len(),
            cs == menu@.children,
            cs.len() == menu.children@.len(),
            forall|j: int| 0 <= j < cs.len() ==> #[trigger] cs[j] == menu.children@[j]@,
            ids@ == page_ids_of(seq![menu@]) + page_ids_of(forest_nodes(cs.take(i as int))),
        decreases menu.children.len() - i,
    {
        proof {
            lemma_forest_nodes_take_step(cs, i as int);
            lemma_page_ids_of_append(forest_nodes(cs.take(i as int)), tree_nodes(cs[i as int]));
        }
        let mut sub = menu_page_ids(&menu.children[i]);
        ids.append(&mut sub);
        i = i + 1;
        proof {
            assert(ids@ =~= page_ids_of(seq![menu@]) + page_ids_of(forest_nodes(cs.take(i as int))));
        }
    }
    proof {
        lemma_forest_nodes_full(cs);
    }
    ids
}

fn collect_tree_menus_for_page(menu: &MenuDefinition, page_id: SymbolId, matches: &mut Vec<MenuDefinition>)
    ensures
        menus_view(final(matches)@) == menus_view(old(matches)@) + nodes_with_page(tree_nodes(menu@), page_id),
    decreases menu,
{
    proof {
        lemma_menus_view(menu.children@);
        lemma_nodes_with_page_append(seq![menu@], forest_nodes(menu@.children), page_id);
        reveal_with_fuel(nodes_with_page, 2);
        assert(seq![menu@].subrange(0, 0) =~= Seq::<MenuView>::empty());
    }
    let ghost cs = menu@.children;
    let ghost start = menus_view(matches@);
    if menu.page_id == Some(page_id) {
        let copy = menu.deep_clone();
        proof {
            lemma_menus_view_push(matches@, copy);
        }
        matches.push(copy);
    }
    assert(menus_view(matches@) =~= start + nodes_with_page(seq![menu@], page_id));
    let mut i: usize = 0;
    while i < menu.children.len()
        invariant
            i <= menu.children.len(),
            cs == menu@.children,
            cs.len() == menu.children@.len(),
            forall|j: int| 0 <= j < cs.len() ==> #[trigger] cs[j] == menu.children@[j]@,
            menus_view(matches@) == start + nodes_with_page(seq![menu@], page_id) + nodes_with_page(
                forest_nodes(cs.take(i as int)),
                page_id,
            ),
        decreases menu.children.len() - i,
    {
        proof {
            lemma_forest_nodes_take_step(cs, i as int);
            lemma_nodes_with_page_append(forest_nodes(cs.take(i as int)), tree_nodes(cs[i as int]), page_id);
        }
        collect_tree_menus_for_page(&menu.children[i], page_id, matches);
        i = i + 1;
        proof {
            assert(menus_view(matches@) =~= start + nodes_with_page(seq![menu@], page_id) + nodes_with_page(
                forest_nodes(cs.take(i as int)),
                page_id,
            ));
        }
    }
    proof {
        lemma_forest_nodes_full(cs);
        assert(menus_view(matches@) =~= start + nodes_with_page(tree_nodes(menu@), page_id));
    }
}

/// Adds every menu below `menus` that opens page `page_id` to `matches`, in pre-order.
pub fn collect_menus_for_page(menus: &[MenuDefinition], page_id: SymbolId, matches: &mut Vec<MenuDefinition>)
    ensures
        menus_view(final(matches)@) == menus_view(old(matches)@) + nodes_with_page(
            forest_nodes(menus_view(menus@)),
            page_id,
        ),
{
    proof {
        lemma_menus_view(menus@);
    }
    let ghost vs = menus_view(menus@);
    let ghost start = menus_view(matches@);
    let mut i: usize = 0;
    while i < menus.len()
        invariant
            i <= menus.len(),
            vs == menus_view(menus@),
            vs.len() == menus@.len(),
            forall|j: int| 0 <= j < vs.len() ==> #[trigger] vs[j] == menus@[j]@,
            menus_view(matches@) == start + nodes_with_page(forest_nodes(vs.take(i as int)), page_id),
        decreases menus.len() - i,
    {
        proof {
            lemma_forest_nodes_take_step(vs, i as int);
            lemma_nodes_with_page_append(forest_nodes(vs.take(i as int)), tree_nodes(vs[i as int]), page_id);
        }
        collect_tree_menus_for_page(&menus[i], page_id, matches);
        i = i + 1;
        proof {
            assert(menus_view(matches@) =~= start + nodes_with_page(forest_nodes(vs.take(i as int)), page_id));
        }
    }
    proof {
        lemma_forest_nodes_full(vs);
    }
}

/// The only menu below `menus` that opens page `page_id`, if there is exactly one.
pub fn unique_menu_for_page(menus: &[MenuDefinition], page_id: SymbolId) -> (found: Option<MenuDefinition>)
    ensures
        ({
            let ms = nodes_with_page(forest_nodes(menus_view(menus@)), page_id);
            match found {
                Some(m) => ms.len() == 1 && m@ == ms[0],
                None => ms.len() != 1,
            }
        }),
{
    let mut matches: Vec<MenuDefinition> = Vec::new();
    collect_menus_for_page(menus, page_id, &mut matches);
    proof {
        lemma_menus_view(matches@);
        assert(menus_view(Seq::<MenuDefinition>::empty()) =~= Seq::<MenuView>::empty());
        assert(menus_view(matches@) =~= nodes_with_page(forest_nodes(menus_view(menus@)), page_id));
    }
    if matches.len() == 1 {
        Some(matches.remove(0))
    } else {
        None
    }
}

} // verus!

verus! {

/// Whether `id` occurs in `ids`.
pub fn contains_id(ids: &[SymbolId], id: SymbolId) -> (found: bool)
    ensures
        found == ids@.contains(id),
{
    let mut i: usize = 0;
    while i < ids.len()
        invariant
            i <= ids.len(),
            forall|j: int| 0 <= j < i ==> ids@[j] != id,
        decreases ids.len() - i,
    {
        if ids[i] == id {
            assert(ids@[i as int] == id);
            return true;
        }
        i = i + 1;
    }
    false
}

pub proof fn lemma_tree_within_forest(vs: Seq<MenuView>, i: int)
    requires
        0 <= i < vs.len(),
    ensures
        tree_nodes(vs[i]).len() <= forest_nodes(vs).len(),
{
    lemma_forest_nodes_take_step(vs, i);
    lemma_forest_nodes_prefix(vs, i + 1);
}

/// A menu that another menu can be moved under, with its depth below the scene.
pub struct MenuParentOption {
    pub id: SymbolId,
    pub name: String,
    pub title: String,
    pub depth: usize,
}

pub ghost struct MenuParentOptionView {
    pub id: SymbolId,
    pub name: Seq<char>,
    pub title: Seq<char>,
    pub depth: nat,
}

impl View for MenuParentOption {
    type V = MenuParentOptionView;

    open spec fn view(&self) -> MenuParentOptionView {
        MenuParentOptionView { id: self.id, name: self.name@, title: self.title@, depth: self.depth as nat }
    }
}

pub open spec fn parent_options_view(os: Seq<MenuParentOption>) -> Seq<MenuParentOptionView> {
    os.map_values(|o: MenuParentOption| o@)
}

/// Pre-order of the tree rooted at `v`, leaving out every subtree whose root is in `excluded`.
pub open spec fn parent_options(v: MenuView, depth: nat, excluded: Seq<SymbolId>) -> Seq<MenuParentOptionView>
    decreases v,
{
    if excluded.contains(v.id) {
        Seq::empty()
    } else {
        seq![MenuParentOptionView { id: v.id, name: v.name, title: v.title, depth }] + forest_parent_options(
            v.children,
            depth + 1,
            excluded,
        )
    }
}

pub open spec fn forest_parent_options(vs: Seq<MenuView>, depth: nat, excluded: Seq<SymbolId>) -> Seq<MenuParentOptionView>
    decreases vs,
{
    if vs.len() == 0 {
        Seq::empty()
    } else {
        forest_parent_options(vs.subrange(0, vs.len() - 1), depth, excluded) + parent_options(
            vs[vs.len() - 1],
            depth,
            excluded,
        )
    }
}

/// Adds the parent options of the tree rooted at `menu` to `options`.
pub fn collect_menu_parent_options(
    menu: &MenuDefinition,
    depth: usize,
    excluded_ids: &[SymbolId],
    options: &mut Vec<MenuParentOption>,
)
    requires
        depth + tree_nodes(menu@).len() <= usize::MAX,
    ensures
        parent_options_view(final(options)@) == parent_options_view(old(options)@) + parent_options(
            menu@,
            depth as nat,
            excluded_ids@,
        ),
    decreases menu,
{
    proof {
        lemma_menus_view(menu.children@);
    }
    let ghost start = parent_options_view(options@);
    if contains_id(excluded_ids, menu.id) {
        assert(parent_options_view(options@) =~= start + parent_options(menu@, depth as nat, excluded_ids@));
        return;
    }
    let ghost cs = menu@.children;
    options.push(MenuParentOption {
        id: menu.id,
        name: menu.name.clone(),
        title: menu.title.clone(),
        depth,
    });
    let ghost head = seq![MenuParentOptionView { id: menu.id, name: menu@.name, title: menu@.title, depth: depth as nat }];
    assert(parent_options_view(options@) =~= start + head);
    let mut i: usize = 0;
    while i < menu.children.len()
        invariant
            i <= menu.children.len(),
            cs == menu@.children,
            cs.len() == menu.children@.len(),
            forall|j: int| 0 <= j < cs.len() ==> #[trigger] cs[j] == menu.children@[j]@,
            depth + tree_nodes(menu@).len() <= usize::MAX,
            tree_nodes(menu@) == seq![menu@] + forest_nodes(cs),
            parent_options_view(options@) == start + head + forest_parent_options(
                cs.take(i as int),
                depth as nat + 1,
                excluded_ids@,
            ),
        decreases menu.children.len() - i,
    {
        proof {
            lemma_tree_within_forest(cs, i as int);
            assert(cs.take(i as int + 1).subrange(0, i as int) =~= cs.take(i as int));
        }
        collect_menu_parent_options(&menu.children[i], depth + 1, excluded_ids, options);
        i = i + 1;
        proof {
            assert(parent_options_view(options@) =~= start + head + forest_parent_options(
                cs.take(i as int),
                depth as nat + 1,
                excluded_ids@,
            ));
        }
    }
    proof {
        lemma_forest_nodes_full(cs);
        assert(parent_options_view(options@) =~= start + parent_options(menu@, depth as nat, excluded_ids@));
    }
}

/// The menus that the menu `excluded_menu_id` leaves out as parents: itself and everything below it.
pub open spec fn excluded_subtree_ids(scene: MenuView, excluded_menu_id: Option<SymbolId>) -> Seq<SymbolId> {
    match excluded_menu_id {
        Some(e) => match first_with_id(tree_nodes(scene), e) {
            Some(m) => node_ids(tree_nodes(m)),
            None => Seq::empty(),
        },
        None => Seq::empty(),
    }
}

/// The menus of `scene` under which `excluded_menu_id` (if any) may be placed.
pub fn menu_parent_options(scene: &MenuDefinition, excluded_menu_id: Option<SymbolId>) -> (options: Vec<MenuParentOption>)
    requires
        tree_nodes(scene@).len() <= usize::MAX,
    ensures
        parent_options_view(options@) == parent_options(scene@, 0, excluded_subtree_ids(scene@, excluded_menu_id)),
{
    let mut excluded_ids: Vec<SymbolId> = Vec::new();
    match excluded_menu_id {
        Some(e) => match find_menu_definition(scene, e) {
            Some(m) => collect_menu_ids(m, &mut excluded_ids),
            None => {},
        },
        None => {},
    }
    assert(excluded_ids@ =~= excluded_subtree_ids(scene@, excluded_menu_id));
    let mut options: Vec<MenuParentOption> = Vec::new();
    collect_menu_parent_options(scene, 0, &excluded_ids, &mut options);
    assert(parent_options_view(options@) =~= parent_options(scene@, 0, excluded_ids@));
    options
}

pub proof fn lemma_parent_options_avoid(v: MenuView, depth: nat, excluded: Seq<SymbolId>)
    ensures
        forall|k: int| 0 <= k < parent_options(v, depth, excluded).len()
            ==> !excluded.contains(#[trigger] parent_options(v, depth, excluded)[k].id),
    decreases v,
{
    if !excluded.contains(v.id) {
        lemma_forest_parent_options_avoid(v.children, depth + 1, excluded);
        let head = seq![MenuParentOptionView { id: v.id, name: v.name, title: v.title, depth }];
        let rest = forest_parent_options(v.children, depth + 1, excluded);
        assert forall|k: int| 0 <= k < parent_options(v, depth, excluded).len()
            implies !excluded.contains(#[trigger] parent_options(v, depth, excluded)[k].id) by {
            if k > 0 {
                assert(parent_options(v, depth, excluded)[k] == rest[k - 1]);
            }
        }
    }
}

pub proof fn lemma_forest_parent_options_avoid(vs: Seq<MenuView>, depth: nat, excluded: Seq<SymbolId>)
    ensures
        forall|k: int| 0 <= k < forest_parent_options(vs, depth, excluded).len()
            ==> !excluded.contains(#[trigger] forest_parent_options(vs, depth, excluded)[k].id),
    decreases vs,
{
    if vs.len() > 0 {
        lemma_forest_parent_options_avoid(vs.subrange(0, vs.len() - 1), depth, excluded);
        lemma_parent_options_avoid(vs[vs.len() - 1], depth, excluded);
        let a = forest_parent_options(vs.subrange(0, vs.len() - 1), depth, excluded);
        let b = parent_options(vs[vs.len() - 1], depth, excluded);
        assert forall|k: int| 0 <= k < forest_parent_options(vs, depth, excluded).len()
            implies !excluded.contains(#[trigger] forest_parent_options(vs, depth, excluded)[k].id) by {
            if k < a.len() {
                assert(forest_parent_options(vs, depth, excluded)[k] == a[k]);
            } else {
                assert(forest_parent_options(vs, depth, excluded)[k] == b[k - a.len()]);
            }
        }
    }
}

/// A menu is never offered as a parent of itself nor of any menu above it: no option of
/// `menu_parent_options(scene, Some(e))` lies in the subtree of `e`.
pub proof fn parent_options_exclude_subtree(scene: MenuView, excluded_menu_id: Option<SymbolId>, k: int)
    requires
        0 <= k < parent_options(scene, 0, excluded_subtree_ids(scene, excluded_menu_id)).len(),
    ensures
        !excluded_subtree_ids(scene, excluded_menu_id).contains(
            parent_options(scene, 0, excluded_subtree_ids(scene, excluded_menu_id))[k].id,
        ),
{
    lemma_parent_options_avoid(scene, 0, excluded_subtree_ids(scene, excluded_menu_id));
}

} // verus!

verus! {

/// A row of the menu table: a menu with its place in the tree.
pub struct MenuTableRow {
    pub menu: MenuDefinition,
    pub depth: usize,
    pub position: usize,
    pub parent_id: SymbolId,
    pub collection: crate::patch::ChildCollection,
    pub sibling_count: usize,
}

pub ghost struct MenuTableRowView {
    pub menu: MenuView,
    pub depth: nat,
    pub position: nat,
    pub parent_id: SymbolId,
    pub collection: crate::patch::ChildCollection,
    pub sibling_count: nat,
}

impl View for MenuTableRow {
    type V = MenuTableRowView;

    open spec fn view(&self) -> MenuTableRowView {
        MenuTableRowView {
            menu: self.menu@,
            depth: self.depth as nat,
            position: self.position as nat,
            parent_id: self.parent_id,
            collection: self.collection,
            sibling_count: self.sibling_count as nat,
        }
    }
}

pub open spec fn rows_view(rows: Seq<MenuTableRow>) -> Seq<MenuTableRowView> {
    rows.map_values(|r: MenuTableRow| r@)
}

/// The rows of the tree rooted at `v` in pre-order; the children of a collapsed menu are left out.
pub open spec fn table_rows(
    v: MenuView,
    depth: nat,
    position: nat,
    parent_id: SymbolId,
    collection: crate::patch::ChildCollection,
    sibling_count: nat,
    collapsed: Seq<SymbolId>,
) -> Seq<MenuTableRowView>
    decreases v,
{
    seq![MenuTableRowView { menu: v, depth, position, parent_id, collection, sibling_count }] + if collapsed.contains(
        v.id,
    ) {
        Seq::empty()
    } else {
        forest_table_rows(
            v.children,
            depth + 1,
            v.id,
            crate::patch::ChildCollection::MenuChildren,
            v.children.len(),
            collapsed,
        )
    }
}

/// The rows of the trees `vs`, the tree at index `i` taking position `i`.
pub open spec fn forest_table_rows(
    vs: Seq<MenuView>,
    depth: nat,
    parent_id: SymbolId,
    collection: crate::patch::ChildCollection,
    sibling_count: nat,
    collapsed: Seq<SymbolId>,
) -> Seq<MenuTableRowView>
    decreases vs,
{
    if vs.len() == 0 {
        Seq::empty()
    } else {
        forest_table_rows(vs.subrange(0, vs.len() - 1), depth, parent_id, collection, sibling_count, collapsed)
            + table_rows(
            vs[vs.len() - 1],
            depth,
            (vs.len() - 1) as nat,
            parent_id,
            collection,
            sibling_count,
            collapsed,
        )
    }
}

/// The table rows of the tree rooted at `menu`.
pub fn menu_table_rows(
    menu: &MenuDefinition,
    depth: usize,
    position: usize,
    parent_id: SymbolId,
    collection: crate::patch::ChildCollection,
    sibling_count: usize,
    collapsed_menus: &[SymbolId],
) -> (rows: Vec<MenuTableRow>)
    requires
        depth + tree_nodes(menu@).len() <= usize::MAX,
    ensures
        rows_view(rows@) == table_rows(
            menu@,
            depth as nat,
            position as nat,
            parent_id,
            collection,
            sibling_count as nat,
            collapsed_menus@,
        ),
    decreases menu,
{
    proof {
        lemma_menus_view(menu.children@);
    }
    let ghost cs = menu@.children;
    let mut rows: Vec<MenuTableRow> = Vec::new();
    rows.push(MenuTableRow {
        menu: menu.deep_clone(),
        depth,
        position,
        parent_id,
        collection,
        sibling_count,
    });
    let ghost head = seq![MenuTableRowView {
        menu: menu@,
        depth: depth as nat,
        position: position as nat,
        parent_id,
        collection,
        sibling_count: sibling_count as nat,
    }];
    assert(rows_view(rows@) =~= head);
    if contains_id(collapsed_menus, menu.id) {
        assert(rows_view(rows@) =~= table_rows(
            menu@,
            depth as nat,
            position as nat,
            parent_id,
            collection,
            sibling_count as nat,
            collapsed_menus@,
        ));
        return rows;
    }
    let child_count = menu.children.len();
    let mut i: usize = 0;
    while i < child_count
        invariant
            i <= child_count,
            child_count == menu.children.len(),
            cs == menu@.children,
            cs.len() == menu.children@.len(),
            forall|j: int| 0 <= j < cs.len() ==> #[trigger] cs[j] == menu.children@[j]@,
            depth + tree_nodes(menu@).len() <= usize::MAX,
            tree_nodes(menu@) == seq![menu@] + forest_nodes(cs),
            rows_view(rows@) == head + forest_table_rows(
                cs.take(i as int),
                depth as nat + 1,
                menu.id,
                crate::patch::ChildCollection::MenuChildren,
                cs.len(),
                collapsed_menus@,
            ),
        decreases child_count - i,
    {
        proof {
            lemma_tree_within_forest(cs, i as int);
            assert(cs.take(i as int + 1).subrange(0, i as int) =~= cs.take(i as int));
        }
        let mut sub = menu_table_rows(
            &menu.children[i],
            depth + 1,
            i,
            menu.id,
            crate::patch::ChildCollection::MenuChildren,
            child_count,
            collapsed_menus,
        );
        let ghost before = rows@;
        let ghost added = sub@;
        rows.append(&mut sub);
        i = i + 1;
        proof {
            assert(rows@ == before + added);
            assert(rows_view(before + added) =~= rows_view(before) + rows_view(added));
            assert(rows_view(rows@) =~= head + forest_table_rows(
                cs.take(i as int),
                depth as nat + 1,
                menu.id,
                crate::patch::ChildCollection::MenuChildren,
                cs.len(),
                collapsed_menus@,
            ));
        }
    }
    proof {
        lemma_forest_nodes_full(cs);
        assert(rows_view(rows@) =~= table_rows(
            menu@,
            depth as nat,
            position as nat,
            parent_id,
            collection,
            sibling_count as nat,
            collapsed_menus@,
        ));
    }
    rows
}

} // verus!

verus! {

pub open spec fn first_row_with_id(rows: Seq<MenuTableRowView>, target: SymbolId) -> Option<MenuTableRowView>
    decreases rows.len(),
{
    if rows.len() == 0 {
        None
    } else if rows[0].menu.id == target {
        Some(rows[0])
    } else {
        first_row_with_id(rows.skip(1), target)
    }
}

pub proof fn lemma_first_row_append(a: Seq<MenuTableRowView>, b: Seq<MenuTableRowView>, target: SymbolId)
    ensures
        first_row_with_id(a + b, target) == (match first_row_with_id(a, target) {
            Some(x) => Some(x),
            None => first_row_with_id(b, target),
        }),
    decreases a.len(),
{
    if a.len() == 0 {
        assert(a + b =~= b);
    } else {
        assert((a + b)[0] == a[0]);
        assert((a + b).skip(1) =~= a.skip(1) + b);
        lemma_first_row_append(a.skip(1), b, target);
    }
}

/// Finds the row of `target` in a list of rows: the first one, scanning from the front.
fn find_row_in(rows: Vec<MenuTableRow>, target: SymbolId) -> (found: Option<MenuTableRow>)
    ensures
        match found {
            Some(r) => first_row_with_id(rows_view(rows@), target) == Some(r@),
            None => first_row_with_id(rows_view(rows@), target) is None,
        },
{
    let ghost all = rows_view(rows@);
    assert(all.skip(0) =~= all);
    let mut i: usize = 0;
    while i < rows.len()
        invariant
            i <= rows.len(),
            all == rows_view(rows@),
            first_row_with_id(all, target) == first_row_with_id(all.skip(i as int), target),
        decreases rows.len() - i,
    {
        assert(all.skip(i as int)[0] == rows@[i as int]@);
        if rows[i].menu.id == target {
            let mut rows = rows;
            return Some(rows.remove(i));
        }
        assert(all.skip(i as int).skip(1) =~= all.skip(i as int + 1));
        i = i + 1;
    }
    assert(all.skip(i as int) =~= Seq::<MenuTableRowView>::empty());
    None
}

/// The table row of menu `target` among all scenes of `menus`, nothing collapsed.
pub fn find_menu_table_row(menus: &[MenuDefinition], program_id: SymbolId, target_id: SymbolId) -> (found: Option<MenuTableRow>)
    requires
        forest_nodes(menus_view(menus@)).len() <= usize::MAX,
    ensures
        ({
            let all = forest_table_rows(
                menus_view(menus@),
                0,
                program_id,
                crate::patch::ChildCollection::Menus,
                menus@.len(),
                Seq::empty(),
            );
            match found {
                Some(r) => first_row_with_id(all, target_id) == Some(r@),
                None => first_row_with_id(all, target_id) is None,
            }
        }),
{
    proof {
        lemma_menus_view(menus@);
    }
    let ghost vs = menus_view(menus@);
    let ghost whole = forest_table_rows(vs, 0, program_id, crate::patch::ChildCollection::Menus, menus@.len(), Seq::empty());
    let none: Vec<SymbolId> = Vec::new();
    let mut i: usize = 0;
    while i < menus.len()
        invariant
            i <= menus.len(),
            vs == menus_view(menus@),
            vs.len() == menus@.len(),
            forall|j: int| 0 <= j < vs.len() ==> #[trigger] vs[j] == menus@[j]@,
            forest_nodes(vs).len() <= usize::MAX,
            none@ == Seq::<SymbolId>::empty(),
            whole == forest_table_rows(vs, 0, program_id, crate::patch::ChildCollection::Menus, menus@.len(), Seq::empty()),
            first_row_with_id(
                forest_table_rows(vs.take(i as int), 0, program_id, crate::patch::ChildCollection::Menus, menus@.len(), Seq::empty()),
                target_id,
            ) is None,
        decreases menus.len() - i,
    {
        proof {
            lemma_tree_within_forest(vs, i as int);
        }
        let rows = menu_table_rows(&menus[i], 0, i, program_id, crate::patch::ChildCollection::Menus, menus.len(), &none);
        let ghost tr = rows_view(rows@);
        proof {
            assert(vs.take(i as int + 1).subrange(0, i as int) =~= vs.take(i as int));
            lemma_first_row_append(
                forest_table_rows(vs.take(i as int), 0, program_id, crate::patch::ChildCollection::Menus, menus@.len(), Seq::empty()),
                tr,
                target_id,
            );
            lemma_forest_table_rows_prefix(vs, i as int + 1, program_id, menus@.len());
            lemma_first_row_append(
                forest_table_rows(vs.take(i as int + 1), 0, program_id, crate::patch::ChildCollection::Menus, menus@.len(), Seq::empty()),
                forest_table_rows_from(vs, i as int + 1, program_id, menus@.len()),
                target_id,
            );
        }
        match find_row_in(rows, target_id) {
            Some(r) => {
                return Some(r);
            },
            None => {},
        }
        i = i + 1;
    }
    proof {
        lemma_forest_nodes_full(vs);
    }
    None
}

/// The root-level rows of the scenes from index `i` on, keeping their positions.
pub open spec fn forest_table_rows_from(vs: Seq<MenuView>, i: int, program_id: SymbolId, count: nat) -> Seq<MenuTableRowView> {
    forest_table_rows(vs, 0, program_id, crate::patch::ChildCollection::Menus, count, Seq::empty()).skip(
        forest_table_rows(vs.take(i), 0, program_id, crate::patch::ChildCollection::Menus, count, Seq::empty()).len() as int,
    )
}

pub proof fn lemma_forest_table_rows_prefix(vs: Seq<MenuView>, i: int, program_id: SymbolId, count: nat)
    requires
        0 <= i <= vs.len(),
    ensures
        forest_table_rows(vs, 0, program_id, crate::patch::ChildCollection::Menus, count, Seq::empty())
            == forest_table_rows(vs.take(i), 0, program_id, crate::patch::ChildCollection::Menus, count, Seq::empty())
            + forest_table_rows_from(vs, i, program_id, count),
    decreases vs.len() - i,
{
    let f = |s: Seq<MenuView>| forest_table_rows(s, 0, program_id, crate::patch::ChildCollection::Menus, count, Seq::empty());
    if i == vs.len() {
        assert(vs.take(i) =~= vs);
        assert(f(vs).skip(f(vs).len() as int) =~= Seq::<MenuTableRowView>::empty());
        assert(f(vs) =~= f(vs.take(i)) + forest_table_rows_from(vs, i, program_id, count));
    } else {
        lemma_forest_table_rows_prefix(vs, i + 1, program_id, count);
        assert(vs.take(i + 1).subrange(0, i) =~= vs.take(i));
        let a = f(vs.take(i));
        let b = f(vs.take(i + 1));
        assert(b.subrange(0, a.len() as int) =~= a);
        assert(f(vs) =~= a + f(vs).skip(a.len() as int));
    }
}

} // verus!

verus! {

pub open spec fn row_menus(rows: Seq<MenuTableRowView>) -> Seq<MenuView> {
    rows.map_values(|r: MenuTableRowView| r.menu)
}

pub open spec fn row_depths(rows: Seq<MenuTableRowView>) -> Seq<nat> {
    rows.map_values(|r: MenuTableRowView| r.depth)
}

pub proof fn lemma_forest_rows_cover(
    vs: Seq<MenuView>,
    depth: nat,
    parent_id: SymbolId,
    collection: crate::patch::ChildCollection,
    sibling_count: nat,
)
    ensures
        row_menus(forest_table_rows(vs, depth, parent_id, collection, sibling_count, Seq::empty())) == forest_nodes(vs),
        row_depths(forest_table_rows(vs, depth, parent_id, collection, sibling_count, Seq::empty())) == forest_depths(vs, depth),
    decreases vs,
{
    if vs.len() == 0 {
        assert(row_menus(forest_table_rows(vs, depth, parent_id, collection, sibling_count, Seq::empty()))
            =~= forest_nodes(vs));
        assert(row_depths(forest_table_rows(vs, depth, parent_id, collection, sibling_count, Seq::empty()))
            =~= forest_depths(vs, depth));
    } else {
        let init = vs.subrange(0, vs.len() - 1);
        lemma_forest_rows_cover(init, depth, parent_id, collection, sibling_count);
        table_rows_cover_tree(vs[vs.len() - 1], depth, (vs.len() - 1) as nat, parent_id, collection, sibling_count);
        let a = forest_table_rows(init, depth, parent_id, collection, sibling_count, Seq::empty());
        let b = table_rows(vs[vs.len() - 1], depth, (vs.len() - 1) as nat, parent_id, collection, sibling_count, Seq::empty());
        assert(row_menus(a + b) =~= row_menus(a) + row_menus(b));
        assert(row_depths(a + b) =~= row_depths(a) + row_depths(b));
    }
}

/// With no menu collapsed, the menu table lists every menu of the tree exactly once, in
/// pre-order: the menus of its rows are the tree's nodes, each at its depth.
pub proof fn table_rows_cover_tree(
    v: MenuView,
    depth: nat,
    position: nat,
    parent_id: SymbolId,
    collection: crate::patch::ChildCollection,
    sibling_count: nat,
)
    ensures
        row_menus(table_rows(v, depth, position, parent_id, collection, sibling_count, Seq::empty())) == tree_nodes(v),
        table_rows(v, depth, position, parent_id, collection, sibling_count, Seq::empty()).len() == tree_nodes(v).len(),
        row_depths(table_rows(v, depth, position, parent_id, collection, sibling_count, Seq::empty())) == tree_depths(v, depth),
    decreases v,
{
    lemma_forest_rows_cover(v.children, depth + 1, v.id, crate::patch::ChildCollection::MenuChildren, v.children.len());
    let head = seq![MenuTableRowView { menu: v, depth, position, parent_id, collection, sibling_count }];
    let rest = forest_table_rows(v.children, depth + 1, v.id, crate::patch::ChildCollection::MenuChildren, v.children.len(), Seq::empty());
    assert(!Seq::<SymbolId>::empty().contains(v.id));
    assert(row_menus(head + rest) =~= row_menus(head) + row_menus(rest));
    assert(row_menus(head) =~= seq![v]);
    assert(row_depths(head + rest) =~= row_depths(head) + row_depths(rest));
    assert(row_depths(head) =~= seq![depth]);
}

/// How a parent choice is shown: indented two spaces per level, then its title and name.
pub open spec fn menu_parent_option_label_spec(option: MenuParentOption) -> Seq<char> {
    crate::text::repeat_seq("  "@, option.depth as nat) + option.title@ + " · "@ + option.name@
}

/// The label of a parent choice.
pub fn menu_parent_option_label(option: &MenuParentOption) -> (label: String)
    ensures
        label@ == menu_parent_option_label_spec(*option),
{
    let mut label = String::new();
    crate::text::push_repeated(&mut label, "  ", option.depth);
    label.append(option.title.as_str());
    label.append(" · ");
    label.append(option.name.as_str());
    assert(label@ =~= menu_parent_option_label_spec(*option));
    label
}

} // verus!

verus! {

/// The depths of the nodes of the tree rooted at `v` in pre-order, `v` being at `depth`.
pub open spec fn tree_depths(v: MenuView, depth: nat) -> Seq<nat>
    decreases v,
{
    seq![depth] + forest_depths(v.children, depth + 1)
}

/// The depths of the nodes of trees `vs` in pre-order, their roots being at `depth`.
pub open spec fn forest_depths(vs: Seq<MenuView>, depth: nat) -> Seq<nat>
    decreases vs,
{
    if vs.len() == 0 {
        Seq::empty()
    } else {
        forest_depths(vs.subrange(0, vs.len() - 1), depth) + tree_depths(vs[vs.len() - 1], depth)
    }
}

/// The parent option of a menu at a depth.
pub open spec fn option_of(m: MenuView, depth: nat) -> MenuParentOptionView {
    MenuParentOptionView { id: m.id, name: m.name, title: m.title, depth }
}

proof fn lemma_parent_options_whole(v: MenuView, depth: nat)
    ensures
        parent_options(v, depth, Seq::empty()).len() == tree_nodes(v).len(),
        tree_depths(v, depth).len() == tree_nodes(v).len(),
        forall|k: int| 0 <= k < tree_nodes(v).len()
            ==> #[trigger] parent_options(v, depth, Seq::empty())[k] == option_of(tree_nodes(v)[k], tree_depths(v, depth)[k]),
    decreases v,
{
    lemma_forest_parent_options_whole(v.children, depth + 1);
    assert(!Seq::<SymbolId>::empty().contains(v.id));
    let rest = forest_parent_options(v.children, depth + 1, Seq::empty());
    assert forall|k: int| 0 <= k < tree_nodes(v).len()
        implies #[trigger] parent_options(v, depth, Seq::empty())[k] == option_of(tree_nodes(v)[k], tree_depths(v, depth)[k]) by {
        if k > 0 {
            assert(parent_options(v, depth, Seq::empty())[k] == rest[k - 1]);
            assert(tree_nodes(v)[k] == forest_nodes(v.children)[k - 1]);
            assert(tree_depths(v, depth)[k] == forest_depths(v.children, depth + 1)[k - 1]);
        }
    }
}

proof fn lemma_forest_parent_options_whole(vs: Seq<MenuView>, depth: nat)
    ensures
        forest_parent_options(vs, depth, Seq::empty()).len() == forest_nodes(vs).len(),
        forest_depths(vs, depth).len() == forest_nodes(vs).len(),
        forall|k: int| 0 <= k < forest_nodes(vs).len()
            ==> #[trigger] forest_parent_options(vs, depth, Seq::empty())[k] == option_of(forest_nodes(vs)[k], forest_depths(vs, depth)[k]),
    decreases vs,
{
    if vs.len() > 0 {
        let init = vs.subrange(0, vs.len() - 1);
        let last = vs[vs.len() - 1];
        lemma_forest_parent_options_whole(init, depth);
        lemma_parent_options_whole(last, depth);
        let a = forest_parent_options(init, depth, Seq::empty());
        let b = parent_options(last, depth, Seq::empty());
        let na = forest_nodes(init);
        let nb = tree_nodes(last);
        let da = forest_depths(init, depth);
        let db = tree_depths(last, depth);
        assert forall|k: int| 0 <= k < forest_nodes(vs).len()
            implies #[trigger] forest_parent_options(vs, depth, Seq::empty())[k] == option_of(forest_nodes(vs)[k], forest_depths(vs, depth)[k]) by {
            if k < a.len() {
                assert(forest_parent_options(vs, depth, Seq::empty())[k] == a[k]);
                assert(forest_nodes(vs)[k] == na[k]);
                assert(forest_depths(vs, depth)[k] == da[k]);
            } else {
                assert(forest_parent_options(vs, depth, Seq::empty())[k] == b[k - a.len()]);
                assert(forest_nodes(vs)[k] == nb[k - na.len()]);
                assert(forest_depths(vs, depth)[k] == db[k - da.len()]);
            }
        }
    }
}

/// When no menu is to be moved, or the one named is not in the scene, every menu of the scene
/// is offered as a parent, once each and in pre-order: there are as many options as menus in
/// the tree, and the option at each place is the menu at that place, at its depth below the
/// scene.
pub proof fn parent_options_cover_tree(scene: MenuView, excluded_menu_id: Option<SymbolId>)
    requires
        excluded_menu_id matches Some(e) ==> !node_ids(tree_nodes(scene)).contains(e),
    ensures
        parent_options(scene, 0, excluded_subtree_ids(scene, excluded_menu_id)).len() == tree_nodes(scene).len(),
        tree_depths(scene, 0).len() == tree_nodes(scene).len(),
        forall|k: int| 0 <= k < tree_nodes(scene).len()
            ==> #[trigger] parent_options(scene, 0, excluded_subtree_ids(scene, excluded_menu_id))[k]
                == option_of(tree_nodes(scene)[k], tree_depths(scene, 0)[k]),
{
    if let Some(e) = excluded_menu_id {
        lemma_first_with_id_none(tree_nodes(scene), e);
        if first_with_id(tree_nodes(scene), e) is Some {
            let k = choose|k: int| 0 <= k < tree_nodes(scene).len() && #[trigger] tree_nodes(scene)[k].id == e;
            assert(node_ids(tree_nodes(scene))[k] == e);
        }
    }
    assert(excluded_subtree_ids(scene, excluded_menu_id) =~= Seq::<SymbolId>::empty());
    lemma_parent_options_whole(scene, 0);
}

/// The row that the `j`-th child of the menu of `row` gets in the table.
pub open spec fn child_row(row: MenuTableRowView, j: int) -> MenuTableRowView {
    MenuTableRowView {
        menu: row.menu.children[j],
        depth: row.depth + 1,
        position: j as nat,
        parent_id: row.menu.id,
        collection: crate::patch::ChildCollection::MenuChildren,
        sibling_count: row.menu.children.len(),
    }
}

/// Every row whose menu is not collapsed is followed, somewhere in `rows`, by the row of each
/// of its children.
pub open spec fn rows_hold_children(rows: Seq<MenuTableRowView>, collapsed: Seq<SymbolId>) -> bool {
    forall|k: int, j: int|
        0 <= k < rows.len() && 0 <= j < rows[k].menu.children.len() && !collapsed.contains(rows[k].menu.id)
            ==> rows.contains(#[trigger] child_row(rows[k], j))
}

proof fn lemma_table_rows_hold_children(
    v: MenuView,
    depth: nat,
    position: nat,
    parent_id: SymbolId,
    collection: crate::patch::ChildCollection,
    sibling_count: nat,
    collapsed: Seq<SymbolId>,
)
    ensures
        rows_hold_children(table_rows(v, depth, position, parent_id, collection, sibling_count, collapsed), collapsed),
        table_rows(v, depth, position, parent_id, collection, sibling_count, collapsed).len() > 0,
        table_rows(v, depth, position, parent_id, collection, sibling_count, collapsed)[0]
            == (MenuTableRowView { menu: v, depth, position, parent_id, collection, sibling_count }),
    decreases v,
{
    let rows = table_rows(v, depth, position, parent_id, collection, sibling_count, collapsed);
    let r0 = MenuTableRowView { menu: v, depth, position, parent_id, collection, sibling_count };
    assert(rows[0] == r0);
    if !collapsed.contains(v.id) {
        let f = forest_table_rows(
            v.children,
            depth + 1,
            v.id,
            crate::patch::ChildCollection::MenuChildren,
            v.children.len(),
            collapsed,
        );
        lemma_forest_rows_hold_children(
            v.children,
            depth + 1,
            v.id,
            crate::patch::ChildCollection::MenuChildren,
            v.children.len(),
            collapsed,
        );
        assert(rows =~= seq![r0] + f);
        assert forall|k: int, j: int|
            0 <= k < rows.len() && 0 <= j < rows[k].menu.children.len() && !collapsed.contains(rows[k].menu.id)
            implies rows.contains(#[trigger] child_row(rows[k], j)) by {
            if k == 0 {
                assert(f.contains(child_row(r0, j)));
            } else {
                assert(rows[k] == f[k - 1]);
                assert(f.contains(child_row(f[k - 1], j)));
            }
            let i = choose|i: int| 0 <= i < f.len() && #[trigger] f[i] == child_row(rows[k], j);
            assert(rows[i + 1] == f[i]);
        }
    }
}

proof fn lemma_forest_rows_hold_children(
    vs: Seq<MenuView>,
    depth: nat,
    parent_id: SymbolId,
    collection: crate::patch::ChildCollection,
    sibling_count: nat,
    collapsed: Seq<SymbolId>,
)
    ensures
        rows_hold_children(forest_table_rows(vs, depth, parent_id, collection, sibling_count, collapsed), collapsed),
        forall|j: int| 0 <= j < vs.len() ==> forest_table_rows(vs, depth, parent_id, collection, sibling_count, collapsed)
            .contains(MenuTableRowView { menu: #[trigger] vs[j], depth, position: j as nat, parent_id, collection, sibling_count }),
    decreases vs,
{
    if vs.len() > 0 {
        let init = vs.subrange(0, vs.len() - 1);
        let n = vs.len() - 1;
        lemma_forest_rows_hold_children(init, depth, parent_id, collection, sibling_count, collapsed);
        lemma_table_rows_hold_children(vs[n], depth, n as nat, parent_id, collection, sibling_count, collapsed);
        let a = forest_table_rows(init, depth, parent_id, collection, sibling_count, collapsed);
        let b = table_rows(vs[n], depth, n as nat, parent_id, collection, sibling_count, collapsed);
        let rows = forest_table_rows(vs, depth, parent_id, collection, sibling_count, collapsed);
        assert(rows =~= a + b);
        assert forall|k: int, j: int|
            0 <= k < rows.len() && 0 <= j < rows[k].menu.children.len() && !collapsed.contains(rows[k].menu.id)
            implies rows.contains(#[trigger] child_row(rows[k], j)) by {
            if k < a.len() {
                assert(rows[k] == a[k]);
                assert(a.contains(child_row(a[k], j)));
                let i = choose|i: int| 0 <= i < a.len() && #[trigger] a[i] == child_row(a[k], j);
                assert(rows[i] == a[i]);
            } else {
                assert(rows[k] == b[k - a.len()]);
                assert(b.contains(child_row(b[k - a.len()], j)));
                let i = choose|i: int| 0 <= i < b.len() && #[trigger] b[i] == child_row(b[k - a.len()], j);
                assert(rows[i + a.len()] == b[i]);
            }
        }
        assert forall|j: int| 0 <= j < vs.len() implies rows.contains(
            MenuTableRowView { menu: #[trigger] vs[j], depth, position: j as nat, parent_id, collection, sibling_count },
        ) by {
            if j < n {
                assert(vs[j] == init[j]);
                let x = MenuTableRowView { menu: init[j], depth, position: j as nat, parent_id, collection, sibling_count };
                assert(a.contains(x));
                let i = choose|i: int| 0 <= i < a.len() && #[trigger] a[i] == x;
                assert(rows[i] == a[i]);
            } else {
                assert(rows[a.len() as int] == b[0]);
            }
        }
    }
}

/// In the menu table, the row of every menu that is not collapsed is accompanied by the row of
/// each of its children: the `j`-th child's row is one level deeper, at position `j`, under the
/// menu's identifier in its list of children, with as many siblings as the menu has children.
pub proof fn table_rows_hold_children(
    v: MenuView,
    depth: nat,
    position: nat,
    parent_id: SymbolId,
    collection: crate::patch::ChildCollection,
    sibling_count: nat,
    collapsed: Seq<SymbolId>,
)
    ensures
        table_rows(v, depth, position, parent_id, collection, sibling_count, collapsed)[0]
            == (MenuTableRowView { menu: v, depth, position, parent_id, collection, sibling_count }),
        rows_hold_children(table_rows(v, depth, position, parent_id, collection, sibling_count, collapsed), collapsed),
{
    lemma_table_rows_hold_children(v, depth, position, parent_id, collection, sibling_count, collapsed);
}

} // verus!

verus! {

/// Every node of one of the trees is a node of the whole forest, at its offset after the trees
/// before it.
proof fn lemma_tree_node_in_forest(vs: Seq<MenuView>, i: int, k: int)
    requires
        0 <= i < vs.len(),
        0 <= k < tree_nodes(vs[i]).len(),
    ensures
        forest_nodes(vs).contains(tree_nodes(vs[i])[k]),
{
    lemma_forest_nodes_take_step(vs, i);
    lemma_forest_nodes_prefix(vs, i + 1);
    let before = forest_nodes(vs.take(i));
    assert(forest_nodes(vs)[before.len() + k] == tree_nodes(vs[i])[k]);
}

/// The name check of the menu editor finds a menu of any scene, the scenes themselves and
/// their children included, with the name asked for, other than the menu being edited; and it
/// finds nothing else.
pub proof fn name_check_finds_every_menu(vs: Seq<MenuView>, name: Seq<char>, excluded_id: Option<SymbolId>)
    ensures
        any_node(forest_nodes(vs), named_like(name, excluded_id)) <==> exists|k: int|
            0 <= k < forest_nodes(vs).len() && (#[trigger] forest_nodes(vs)[k]).name == name && Some(
                forest_nodes(vs)[k].id,
            ) != excluded_id,
        forall|i: int|
            0 <= i < vs.len() && (#[trigger] vs[i]).name == name && Some(vs[i].id) != excluded_id ==> any_node(
                forest_nodes(vs),
                named_like(name, excluded_id),
            ),
        forall|i: int, j: int|
            0 <= i < vs.len() && 0 <= j < vs[i].children.len() && (#[trigger] vs[i].children[j]).name == name && Some(
                vs[i].children[j].id,
            ) != excluded_id ==> any_node(forest_nodes(vs), named_like(name, excluded_id)),
{
    let p = named_like(name, excluded_id);
    let ns = forest_nodes(vs);
    if any_node(ns, p) {
        let k = choose|k: int| 0 <= k < ns.len() && #[trigger] p(ns[k]);
        assert(ns[k].name == name && Some(ns[k].id) != excluded_id);
    }
    if exists|k: int| 0 <= k < ns.len() && (#[trigger] ns[k]).name == name && Some(ns[k].id) != excluded_id {
        let k = choose|k: int| 0 <= k < ns.len() && (#[trigger] ns[k]).name == name && Some(ns[k].id) != excluded_id;
        assert(p(ns[k]));
    }
    assert forall|i: int| 0 <= i < vs.len() && (#[trigger] vs[i]).name == name && Some(vs[i].id) != excluded_id implies any_node(
        forest_nodes(vs),
        p,
    ) by {
        lemma_tree_node_in_forest(vs, i, 0);
        let k = choose|k: int| 0 <= k < forest_nodes(vs).len() && forest_nodes(vs)[k] == tree_nodes(vs[i])[0];
        assert(p(forest_nodes(vs)[k]));
    }
    assert forall|i: int, j: int|
        0 <= i < vs.len() && 0 <= j < vs[i].children.len() && (#[trigger] vs[i].children[j]).name == name && Some(
            vs[i].children[j].id,
        ) != excluded_id implies any_node(forest_nodes(vs), p) by {
        let cs = vs[i].children;
        lemma_forest_nodes_take_step(cs, j);
        lemma_forest_nodes_prefix(cs, j + 1);
        let off = forest_nodes(cs.take(j)).len() as int;
        assert(forest_nodes(cs)[off] == cs[j]);
        assert(tree_nodes(vs[i])[1 + off] == cs[j]);
        lemma_tree_node_in_forest(vs, i, 1 + off);
        let k = choose|k: int| 0 <= k < forest_nodes(vs).len() && forest_nodes(vs)[k] == tree_nodes(vs[i])[1 + off];
        assert(p(forest_nodes(vs)[k]));
    }
}

} // verus!

verus! {

/// A collapsed menu shows only its own row, and a menu that is not collapsed shows its own row
/// followed by the rows of its children's trees.
pub proof fn collapsed_menus_hide_their_children(
    v: MenuView,
    depth: nat,
    position: nat,
    parent_id: SymbolId,
    collection: crate::patch::ChildCollection,
    sibling_count: nat,
    collapsed: Seq<SymbolId>,
)
    ensures
        collapsed.contains(v.id) ==> table_rows(v, depth, position, parent_id, collection, sibling_count, collapsed)
            == seq![MenuTableRowView { menu: v, depth, position, parent_id, collection, sibling_count }],
        !collapsed.contains(v.id) && v.children.len() > 0 ==> table_rows(
            v,
            depth,
            position,
            parent_id,
            collection,
            sibling_count,
            collapsed,
        ).len() > 1,
{
    if !collapsed.contains(v.id) && v.children.len() > 0 {
        lemma_table_rows_hold_children(
            v.children[v.children.len() - 1],
            depth + 1,
            (v.children.len() - 1) as nat,
            v.id,
            crate::patch::ChildCollection::MenuChildren,
            v.children.len(),
            collapsed,
        );
    }
}

} // verus!
