//! The tree-table renderer that the page designer suggests for a page about users: a tree of
//! departments beside a table of users.

use vstd::prelude::*;
use crate::symbol::{SymbolId, symbol_text};
use crate::text::text_eq;
use crate::definition::{FieldDefinition, ModelDefinition};
use vstd::string::StrSliceExecFns;
use vstd::string::StringExecFns;

verus! {

/// A page of the program.
pub struct PageDefinition {
    pub id: SymbolId,
    pub name: String,
    pub title: String,
}

/// How a page renders.
#[derive(Clone, Copy, Debug, PartialEq, Eq, Structural)]
pub enum PageRendererKind {
    ConventionFile,
    Extension,
    MenuTree,
    TreeTable,
    CrudTable,
}

/// The renderer settings of a page as the settings form holds them.
pub struct PageRendererDraft {
    pub kind: PageRendererKind,
    pub extension: Option<String>,
    pub table_model_id: String,
    pub page_size: String,
    pub tree_model_id: String,
    pub tree_label_field_id: String,
    pub tree_parent_field_id: String,
    pub table_relation_field_id: String,
}

pub ghost struct PageRendererDraftView {
    pub kind: PageRendererKind,
    pub extension: Option<Seq<char>>,
    pub table_model_id: Seq<char>,
    pub page_size: Seq<char>,
    pub tree_model_id: Seq<char>,
    pub tree_label_field_id: Seq<char>,
    pub tree_parent_field_id: Seq<char>,
    pub table_relation_field_id: Seq<char>,
}

impl View for PageRendererDraft {
    type V = PageRendererDraftView;

    open spec fn view(&self) -> PageRendererDraftView {
        PageRendererDraftView {
            kind: self.kind,
            extension: match self.extension {
                Some(e) => Some(e@),
                None => None,
            },
            table_model_id: self.table_model_id@,
            page_size: self.page_size@,
            tree_model_id: self.tree_model_id@,
            tree_label_field_id: self.tree_label_field_id@,
            tree_parent_field_id: self.tree_parent_field_id@,
            table_relation_field_id: self.table_relation_field_id@,
        }
    }
}

/// The lower-case form of a text, as `str::to_lowercase` gives it.
pub uninterp spec fn lowercase(s: Seq<char>) -> Seq<char>;

/// Trusted: calls `str::to_lowercase`, whose result std documents as a function of the text
/// alone (each character replaced by its Unicode lower-case mapping); this contract names that
/// result and states nothing more of it.
#[verifier::external_body]
fn to_lowercase(s: &str) -> (lower: String)
    ensures
        lower@ == lowercase(s@),
{
    s.to_lowercase()
}

/// Whether `t` occurs in `s`.
pub open spec fn contains_text(s: Seq<char>, t: Seq<char>) -> bool {
    exists|i: int| 0 <= i && i + t.len() <= s.len() && #[trigger] s.subrange(i, i + t.len()) == t
}

/// Whether some token occurs in `s`.
pub open spec fn contains_any(s: Seq<char>, tokens: Seq<Seq<char>>) -> bool {
    exists|k: int| 0 <= k < tokens.len() && #[trigger] contains_text(s, tokens[k])
}

fn text_contains(s: &str, t: &str) -> (found: bool)
    ensures
        found == contains_text(s@, t@),
{
    let n = s.unicode_len();
    let m = t.unicode_len();
    if m > n {
        return false;
    }
    let mut i: usize = 0;
    while i <= n - m
        invariant
            n == s@.len(),
            m == t@.len(),
            m <= n,
            i <= n - m + 1,
            forall|j: int| 0 <= j < i ==> #[trigger] s@.subrange(j, j + m) != t@,
        decreases n - m + 1 - i,
    {
        let mut k: usize = 0;
        while k < m && s.get_char(i + k) == t.get_char(k)
            invariant
                n == s@.len(),
                m == t@.len(),
                i + m <= n,
                k <= m,
                forall|q: int| 0 <= q < k ==> s@[i + q] == t@[q],
            decreases m - k,
        {
            k = k + 1;
        }
        if k == m {
            assert(s@.subrange(i as int, i + m) =~= t@);
            return true;
        }
        assert(s@.subrange(i as int, i + m)[k as int] != t@[k as int]);
        i = i + 1;
    }
    false
}

fn text_contains_any(s: &str, tokens: &[&str]) -> (found: bool)
    ensures
        found == contains_any(s@, tokens@.map_values(|t: &str| t@)),
{
    let ghost views = tokens@.map_values(|t: &str| t@);
    let mut k: usize = 0;
    while k < tokens.len()
        invariant
            k <= tokens.len(),
            views == tokens@.map_values(|t: &str| t@),
            forall|j: int| 0 <= j < k ==> !#[trigger] contains_text(s@, views[j]),
        decreases tokens.len() - k,
    {
        if text_contains(s, tokens[k]) {
            assert(contains_text(s@, views[k as int]));
            return true;
        }
        k = k + 1;
    }
    false
}

/// The words that mark a page or model about users.
pub open spec fn user_tokens() -> Seq<Seq<char>> {
    seq!["用户"@, "user"@, "identity"@]
}

/// The words that mark a model about departments.
pub open spec fn tree_tokens() -> Seq<Seq<char>> {
    seq!["部门"@, "组织"@, "department"@, "dept"@, "organization"@]
}

/// The words that mark a model about accounts.
pub open spec fn table_tokens() -> Seq<Seq<char>> {
    seq!["用户"@, "user"@, "account"@, "identity"@]
}

/// The words that mark a parent field.
pub open spec fn parent_tokens() -> Seq<Seq<char>> {
    seq!["parent"@, "parent_id"@, "上级"@]
}

/// The words that mark a field naming a department.
pub open spec fn department_tokens() -> Seq<Seq<char>> {
    seq!["department"@, "dept"@, "organization"@, "部门"@, "组织"@]
}

/// The text a model is recognized by: its name and title.
pub open spec fn model_text(m: ModelDefinition) -> Seq<char> {
    m.name@ + " "@ + m.title@
}

/// The first model at or after `i` whose lower-case text holds one of `tokens`.
pub open spec fn first_model_with(models: Seq<ModelDefinition>, lowered: Seq<Seq<char>>, tokens: Seq<Seq<char>>, i: int) -> Option<int>
    decreases models.len() - i,
{
    if i < 0 || i >= models.len() {
        None
    } else if contains_any(lowered[i], tokens) {
        Some(i)
    } else {
        first_model_with(models, lowered, tokens, i + 1)
    }
}

/// Whether a field is the label of a tree node: named name, title or label.
pub open spec fn is_label_field(f: FieldDefinition) -> bool {
    f.name@ == "name"@ || f.name@ == "title"@ || f.name@ == "label"@
}

/// The first field at or after `i` that satisfies `p`, given the fields' lower-case names.
pub open spec fn first_field_with(fields: Seq<FieldDefinition>, lowered: Seq<Seq<char>>, p: spec_fn(FieldDefinition, Seq<char>) -> bool, i: int) -> Option<int>
    decreases fields.len() - i,
{
    if i < 0 || i >= fields.len() {
        None
    } else if p(fields[i], lowered[i]) {
        Some(i)
    } else {
        first_field_with(fields, lowered, p, i + 1)
    }
}

/// Whether a field of the tree model is its parent link: a parent word in its lower-case name
/// or its title, and no relation other than to the tree model itself.
pub open spec fn parent_field_test(tree_id: SymbolId) -> spec_fn(FieldDefinition, Seq<char>) -> bool {
    |f: FieldDefinition, lower_name: Seq<char>|
        (contains_any(lower_name, parent_tokens()) || contains_any(f.title@, parent_tokens())) && match f.relation {
            Some(r) => r.target_model_id == tree_id,
            None => true,
        }
}

/// Whether a field of the table model links a row to the tree: a relation to the tree model, or
/// a department word in its lower-case name or its title.
pub open spec fn relation_field_test(tree_id: SymbolId) -> spec_fn(FieldDefinition, Seq<char>) -> bool {
    |f: FieldDefinition, lower_name: Seq<char>|
        (f.relation matches Some(r) && r.target_model_id == tree_id) || contains_any(lower_name, department_tokens())
            || contains_any(f.title@, department_tokens())
}

pub open spec fn label_field_test() -> spec_fn(FieldDefinition, Seq<char>) -> bool {
    |f: FieldDefinition, lower_name: Seq<char>| is_label_field(f)
}

/// The suggestion for a page whose lower-case text is `page_lower`, given the lower-case texts
/// of the models and of their fields' names.
pub open spec fn suggest_spec(
    page_lower: Seq<char>,
    models: Seq<ModelDefinition>,
    model_lower: Seq<Seq<char>>,
    field_lower: Seq<Seq<Seq<char>>>,
) -> Option<PageRendererDraftView> {
    if !contains_any(page_lower, user_tokens()) {
        None
    } else {
        match first_model_with(models, model_lower, tree_tokens(), 0) {
            None => None,
            Some(t) => match first_model_with(models, model_lower, table_tokens(), 0) {
                None => None,
                Some(u) => {
                    let tree = models[t];
                    let table = models[u];
                    let label = match first_field_with(tree.fields@, field_lower[t], label_field_test(), 0) {
                        Some(l) => Some(l),
                        None => if tree.fields.len() > 0 {
                            Some(0int)
                        } else {
                            None
                        },
                    };
                    match label {
                        None => None,
                        Some(l) => match first_field_with(table.fields@, field_lower[u], relation_field_test(tree.id), 0) {
                            None => None,
                            Some(r) => Some(
                                PageRendererDraftView {
                                    kind: PageRendererKind::TreeTable,
                                    extension: None,
                                    table_model_id: symbol_text(table.id.value),
                                    page_size: "20"@,
                                    tree_model_id: symbol_text(tree.id.value),
                                    tree_label_field_id: symbol_text(tree.fields@[l].id.value),
                                    tree_parent_field_id: match first_field_with(
                                        tree.fields@,
                                        field_lower[t],
                                        parent_field_test(tree.id),
                                        0,
                                    ) {
                                        Some(p) => symbol_text(tree.fields@[p].id.value),
                                        None => Seq::empty(),
                                    },
                                    table_relation_field_id: symbol_text(table.fields@[r].id.value),
                                },
                            ),
                        },
                    }
                },
            },
        }
    }
}

pub open spec fn texts_view(ts: Seq<String>) -> Seq<Seq<char>> {
    ts.map_values(|t: String| t@)
}

fn contains_user_token(s: &str) -> (found: bool)
    ensures
        found == contains_any(s@, user_tokens()),
{
    let tokens: [&str; 3] = ["用户", "user", "identity"];
    let found = text_contains_any(s, &tokens);
    assert(tokens@.map_values(|t: &str| t@) =~= user_tokens());
    found
}

fn contains_tree_token(s: &str) -> (found: bool)
    ensures
        found == contains_any(s@, tree_tokens()),
{
    let tokens: [&str; 5] = ["部门", "组织", "department", "dept", "organization"];
    let found = text_contains_any(s, &tokens);
    assert(tokens@.map_values(|t: &str| t@) =~= tree_tokens());
    found
}

fn contains_table_token(s: &str) -> (found: bool)
    ensures
        found == contains_any(s@, table_tokens()),
{
    let tokens: [&str; 4] = ["用户", "user", "account", "identity"];
    let found = text_contains_any(s, &tokens);
    assert(tokens@.map_values(|t: &str| t@) =~= table_tokens());
    found
}

fn contains_parent_token(s: &str) -> (found: bool)
    ensures
        found == contains_any(s@, parent_tokens()),
{
    let tokens: [&str; 3] = ["parent", "parent_id", "上级"];
    let found = text_contains_any(s, &tokens);
    assert(tokens@.map_values(|t: &str| t@) =~= parent_tokens());
    found
}

fn contains_department_token(s: &str) -> (found: bool)
    ensures
        found == contains_any(s@, department_tokens()),
{
    let tokens: [&str; 5] = ["department", "dept", "organization", "部门", "组织"];
    let found = text_contains_any(s, &tokens);
    assert(tokens@.map_values(|t: &str| t@) =~= department_tokens());
    found
}

fn first_tree_model(models: &[ModelDefinition], lowered: &[String]) -> (found: Option<usize>)
    requires
        lowered@.len() == models@.len(),
    ensures
        match found {
            Some(i) => first_model_with(models@, texts_view(lowered@), tree_tokens(), 0) == Some(i as int) && i < models@.len(),
            None => first_model_with(models@, texts_view(lowered@), tree_tokens(), 0) is None,
        },
{
    let mut i: usize = 0;
    while i < models.len()
        invariant
            i <= models.len(),
            lowered@.len() == models@.len(),
            first_model_with(models@, texts_view(lowered@), tree_tokens(), 0) == first_model_with(
                models@,
                texts_view(lowered@),
                tree_tokens(),
                i as int,
            ),
        decreases models.len() - i,
    {
        if contains_tree_token(lowered[i].as_str()) {
            return Some(i);
        }
        i = i + 1;
    }
    None
}

fn first_table_model(models: &[ModelDefinition], lowered: &[String]) -> (found: Option<usize>)
    requires
        lowered@.len() == models@.len(),
    ensures
        match found {
            Some(i) => first_model_with(models@, texts_view(lowered@), table_tokens(), 0) == Some(i as int) && i < models@.len(),
            None => first_model_with(models@, texts_view(lowered@), table_tokens(), 0) is None,
        },
{
    let mut i: usize = 0;
    while i < models.len()
        invariant
            i <= models.len(),
            lowered@.len() == models@.len(),
            first_model_with(models@, texts_view(lowered@), table_tokens(), 0) == first_model_with(
                models@,
                texts_view(lowered@),
                table_tokens(),
                i as int,
            ),
        decreases models.len() - i,
    {
        if contains_table_token(lowered[i].as_str()) {
            return Some(i);
        }
        i = i + 1;
    }
    None
}

fn first_label_field(fields: &[FieldDefinition], lowered: &Vec<String>) -> (found: Option<usize>)
    requires
        lowered@.len() == fields@.len(),
    ensures
        match found {
            Some(i) => first_field_with(fields@, texts_view(lowered@), label_field_test(), 0) == Some(i as int) && i < fields@.len(),
            None => first_field_with(fields@, texts_view(lowered@), label_field_test(), 0) is None,
        },
{
    let mut i: usize = 0;
    while i < fields.len()
        invariant
            i <= fields.len(),
            lowered@.len() == fields@.len(),
            first_field_with(fields@, texts_view(lowered@), label_field_test(), 0) == first_field_with(
                fields@,
                texts_view(lowered@),
                label_field_test(),
                i as int,
            ),
        decreases fields.len() - i,
    {
        let name = fields[i].name.as_str();
        if text_eq(name, "name") || text_eq(name, "title") || text_eq(name, "label") {
            return Some(i);
        }
        i = i + 1;
    }
    None
}

fn first_parent_field(fields: &[FieldDefinition], lowered: &Vec<String>, tree_id: SymbolId) -> (found: Option<usize>)
    requires
        lowered@.len() == fields@.len(),
    ensures
        match found {
            Some(i) => first_field_with(fields@, texts_view(lowered@), parent_field_test(tree_id), 0) == Some(i as int) && i < fields@.len(),
            None => first_field_with(fields@, texts_view(lowered@), parent_field_test(tree_id), 0) is None,
        },
{
    let mut i: usize = 0;
    while i < fields.len()
        invariant
            i <= fields.len(),
            lowered@.len() == fields@.len(),
            first_field_with(fields@, texts_view(lowered@), parent_field_test(tree_id), 0) == first_field_with(
                fields@,
                texts_view(lowered@),
                parent_field_test(tree_id),
                i as int,
            ),
        decreases fields.len() - i,
    {
        let named = contains_parent_token(lowered[i].as_str()) || contains_parent_token(fields[i].title.as_str());
        let own = match fields[i].relation {
            Some(r) => r.target_model_id == tree_id,
            None => true,
        };
        if named && own {
            return Some(i);
        }
        i = i + 1;
    }
    None
}

fn first_relation_field(fields: &[FieldDefinition], lowered: &Vec<String>, tree_id: SymbolId) -> (found: Option<usize>)
    requires
        lowered@.len() == fields@.len(),
    ensures
        match found {
            Some(i) => first_field_with(fields@, texts_view(lowered@), relation_field_test(tree_id), 0) == Some(i as int) && i < fields@.len(),
            None => first_field_with(fields@, texts_view(lowered@), relation_field_test(tree_id), 0) is None,
        },
{
    let mut i: usize = 0;
    while i < fields.len()
        invariant
            i <= fields.len(),
            lowered@.len() == fields@.len(),
            first_field_with(fields@, texts_view(lowered@), relation_field_test(tree_id), 0) == first_field_with(
                fields@,
                texts_view(lowered@),
                relation_field_test(tree_id),
                i as int,
            ),
        decreases fields.len() - i,
    {
        let linked = match fields[i].relation {
            Some(r) => r.target_model_id == tree_id,
            None => false,
        };
        if linked || contains_department_token(lowered[i].as_str()) || contains_department_token(fields[i].title.as_str()) {
            return Some(i);
        }
        i = i + 1;
    }
    None
}

pub open spec fn nested_texts_view(ts: Seq<Vec<String>>) -> Seq<Seq<Seq<char>>> {
    ts.map_values(|v: Vec<String>| texts_view(v@))
}

/// Whether the lower-case texts given fit the models: one per model and one per field.
pub open spec fn lowered_fit(models: Seq<ModelDefinition>, model_lower: Seq<String>, field_lower: Seq<Vec<String>>) -> bool {
    &&& model_lower.len() == models.len()
    &&& field_lower.len() == models.len()
    &&& forall|m: int| 0 <= m < models.len() ==> (#[trigger] field_lower[m])@.len() == models[m].fields@.len()
}

/// The tree-table renderer suggested for a page, from the lower-case texts of the page
/// (`page_lower`), of each model's name and title (`model_lower`) and of each field's name
/// (`field_lower`).
pub fn suggest_tree_renderer_from(
    page_lower: &str,
    models: &[ModelDefinition],
    model_lower: &[String],
    field_lower: &[Vec<String>],
) -> (draft: Option<PageRendererDraft>)
    requires
        lowered_fit(models@, model_lower@, field_lower@),
    ensures
        match draft {
            Some(d) => suggest_spec(page_lower@, models@, texts_view(model_lower@), nested_texts_view(field_lower@))
                == Some(d@),
            None => suggest_spec(page_lower@, models@, texts_view(model_lower@), nested_texts_view(field_lower@)) is None,
        },
{
    if !contains_user_token(page_lower) {
        return None;
    }
    let t = match first_tree_model(models, model_lower) {
        Some(t) => t,
        None => return None,
    };
    let u = match first_table_model(models, model_lower) {
        Some(u) => u,
        None => return None,
    };
    let tree = &models[t];
    let table = &models[u];
    assert(field_lower@[t as int]@.len() == tree.fields@.len());
    assert(field_lower@[u as int]@.len() == table.fields@.len());
    assert(nested_texts_view(field_lower@)[t as int] == texts_view(field_lower@[t as int]@));
    assert(nested_texts_view(field_lower@)[u as int] == texts_view(field_lower@[u as int]@));
    let label = match first_label_field(tree.fields.as_slice(), &field_lower[t]) {
        Some(l) => l,
        None => {
            if tree.fields.len() > 0 {
                0
            } else {
                return None;
            }
        },
    };
    let relation = match first_relation_field(table.fields.as_slice(), &field_lower[u], tree.id) {
        Some(r) => r,
        None => return None,
    };
    let parent = match first_parent_field(tree.fields.as_slice(), &field_lower[t], tree.id) {
        Some(p) => tree.fields[p].id.to_text(),
        None => String::new(),
    };
    Some(
        PageRendererDraft {
            kind: PageRendererKind::TreeTable,
            extension: None,
            table_model_id: table.id.to_text(),
            page_size: "20".to_owned(),
            tree_model_id: tree.id.to_text(),
            tree_label_field_id: tree.fields[label].id.to_text(),
            tree_parent_field_id: parent,
            table_relation_field_id: table.fields[relation].id.to_text(),
        },
    )
}

/// The lower-case texts of the models' names and titles and of their fields' names.
pub open spec fn model_lowercase(models: Seq<ModelDefinition>) -> Seq<Seq<char>> {
    models.map_values(|m: ModelDefinition| lowercase(model_text(m)))
}

pub open spec fn field_lowercase(models: Seq<ModelDefinition>) -> Seq<Seq<Seq<char>>> {
    models.map_values(|m: ModelDefinition| m.fields@.map_values(|f: FieldDefinition| lowercase(f.name@)))
}

fn joined_lowercase(a: &str, b: &str) -> (lower: String)
    ensures
        lower@ == lowercase(a@ + " "@ + b@),
{
    let mut text = a.to_owned();
    text.append(" ");
    text.append(b);
    to_lowercase(text.as_str())
}

/// The tree-table renderer the designer suggests for `page`, when the page is about users and
/// the models hold a tree of departments, a table of users linked to it, and a label field for
/// the tree: texts are compared in lower case.
pub fn suggest_user_tree_renderer(page: &PageDefinition, models: &[ModelDefinition]) -> (draft: Option<PageRendererDraft>)
    ensures
        match draft {
            Some(d) => suggest_spec(
                lowercase(page.name@ + " "@ + page.title@),
                models@,
                model_lowercase(models@),
                field_lowercase(models@),
            ) == Some(d@),
            None => suggest_spec(
                lowercase(page.name@ + " "@ + page.title@),
                models@,
                model_lowercase(models@),
                field_lowercase(models@),
            ) is None,
        },
{
    let page_lower = joined_lowercase(page.name.as_str(), page.title.as_str());
    let mut model_lower: Vec<String> = Vec::new();
    let mut field_lower: Vec<Vec<String>> = Vec::new();
    let mut i: usize = 0;
    while i < models.len()
        invariant
            i <= models.len(),
            model_lower@.len() == i,
            field_lower@.len() == i,
            forall|m: int| 0 <= m < i ==> (#[trigger] model_lower@[m])@ == lowercase(model_text(models@[m])),
            forall|m: int| 0 <= m < i ==> (#[trigger] field_lower@[m])@.len() == models@[m].fields@.len(),
            forall|m: int, f: int|
                0 <= m < i && 0 <= f < models@[m].fields@.len() ==> (#[trigger] field_lower@[m]@[f])@ == lowercase(
                    models@[m].fields@[f].name@,
                ),
        decreases models.len() - i,
    {
        let model = &models[i];
        model_lower.push(joined_lowercase(model.name.as_str(), model.title.as_str()));
        let mut names: Vec<String> = Vec::new();
        let mut j: usize = 0;
        while j < model.fields.len()
            invariant
                j <= model.fields.len(),
                names@.len() == j,
                forall|f: int| 0 <= f < j ==> (#[trigger] names@[f])@ == lowercase(model.fields@[f].name@),
            decreases model.fields.len() - j,
        {
            names.push(to_lowercase(model.fields[j].name.as_str()));
            j = j + 1;
        }
        field_lower.push(names);
        i = i + 1;
    }
    assert(texts_view(model_lower@) =~= model_lowercase(models@));
    assert forall|m: int| 0 <= m < models@.len() implies nested_texts_view(field_lower@)[m] =~= field_lowercase(models@)[m] by {
        assert(nested_texts_view(field_lower@)[m] == texts_view(field_lower@[m]@));
    }
    assert(nested_texts_view(field_lower@) =~= field_lowercase(models@));
    suggest_tree_renderer_from(page_lower.as_str(), models, model_lower.as_slice(), field_lower.as_slice())
}

} // verus!
