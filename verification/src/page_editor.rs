//! What submitting the page editor does: the checks on the page's title, name and initial
//! route, how the new page renders, and the patches that create or rename it.

use vstd::prelude::*;
use crate::symbol::SymbolId;
use crate::text::{trim, trim_spec, text_eq};
use crate::definition::RouteDefinition;
use crate::page_renderer::{PageDefinition, PageRendererKind, PageRendererDraft, PageRendererDraftView};
use crate::patch::{ChildCollection, GraphEntity, GraphEntityView, GraphPatch, GraphPatchView, patches_view};
use vstd::string::StringExecFns;

verus! {

/// The page editor's form: the title, and for a new page its route, how it renders and, for a
/// table, the model and page size chosen.
pub struct PageEditorInput {
    pub title: String,
    pub route_path: String,
    pub renderer_kind: PageRendererKind,
    pub table_model_id: String,
    pub page_size: String,
}

pub ghost struct PageEditorInputView {
    pub title: Seq<char>,
    pub route_path: Seq<char>,
    pub renderer_kind: PageRendererKind,
    pub table_model_id: Seq<char>,
    pub page_size: Seq<char>,
}

impl View for PageEditorInput {
    type V = PageEditorInputView;

    open spec fn view(&self) -> PageEditorInputView {
        PageEditorInputView {
            title: self.title@,
            route_path: self.route_path@,
            renderer_kind: self.renderer_kind,
            table_model_id: self.table_model_id@,
            page_size: self.page_size@,
        }
    }
}

/// Whether the editor creates page `page_id`, with its first route `route_id`, as the pages
/// and routes at `page_count` and `route_count` under the root `root_id`; or edits page
/// `page_id`, whose name stays `stable_name`.
pub enum PageEditorMode {
    Create { page_id: SymbolId, route_id: SymbolId, root_id: SymbolId, page_count: usize, route_count: usize },
    Edit { page_id: SymbolId, stable_name: String },
}

pub ghost enum PageEditorModeView {
    Create { page_id: SymbolId, route_id: SymbolId, root_id: SymbolId, page_count: usize, route_count: usize },
    Edit { page_id: SymbolId, stable_name: Seq<char> },
}

impl View for PageEditorMode {
    type V = PageEditorModeView;

    open spec fn view(&self) -> PageEditorModeView {
        match *self {
            PageEditorMode::Create { page_id, route_id, root_id, page_count, route_count } => PageEditorModeView::Create {
                page_id,
                route_id,
                root_id,
                page_count,
                route_count,
            },
            PageEditorMode::Edit { page_id, stable_name } => PageEditorModeView::Edit { page_id, stable_name: stable_name@ },
        }
    }
}

impl PageEditorModeView {
    pub open spec fn page_id(self) -> SymbolId {
        match self {
            PageEditorModeView::Create { page_id, .. } => page_id,
            PageEditorModeView::Edit { page_id, .. } => page_id,
        }
    }
}

/// How a new page renders: from its conventional file, as the program's menu tree, or as a
/// table described by the settings that the editor chose.
pub enum NewPageRenderer {
    ConventionFile,
    MenuTree,
    Table(PageRendererDraft),
}

pub ghost enum NewPageRendererView {
    ConventionFile,
    MenuTree,
    Table(PageRendererDraftView),
}

impl View for NewPageRenderer {
    type V = NewPageRendererView;

    open spec fn view(&self) -> NewPageRendererView {
        match *self {
            NewPageRenderer::ConventionFile => NewPageRendererView::ConventionFile,
            NewPageRenderer::MenuTree => NewPageRendererView::MenuTree,
            NewPageRenderer::Table(d) => NewPageRendererView::Table(d@),
        }
    }
}

/// A page that a patch inserts; it starts known and without endpoints.
pub struct PageEntity {
    pub id: SymbolId,
    pub name: String,
    pub title: String,
    pub renderer: NewPageRenderer,
}

pub ghost struct PageEntityView {
    pub id: SymbolId,
    pub name: Seq<char>,
    pub title: Seq<char>,
    pub renderer: NewPageRendererView,
}

impl View for PageEntity {
    type V = PageEntityView;

    open spec fn view(&self) -> PageEntityView {
        PageEntityView { id: self.id, name: self.name@, title: self.title@, renderer: self.renderer@ }
    }
}

/// A route that a patch inserts; it starts known and requires no permission.
pub struct RouteEntity {
    pub id: SymbolId,
    pub name: String,
    pub path: String,
    pub page_id: SymbolId,
}

pub ghost struct RouteEntityView {
    pub id: SymbolId,
    pub name: Seq<char>,
    pub path: Seq<char>,
    pub page_id: SymbolId,
}

impl View for RouteEntity {
    type V = RouteEntityView;

    open spec fn view(&self) -> RouteEntityView {
        RouteEntityView { id: self.id, name: self.name@, path: self.path@, page_id: self.page_id }
    }
}

/// How the new page renders, or why it cannot be created: an extension page is created
/// elsewhere, and a table whose settings were refused takes the first of the reasons given.
pub open spec fn new_page_renderer_spec(
    input: PageEditorInputView,
    table_errors: Option<Seq<Seq<char>>>,
) -> Result<NewPageRendererView, Option<Seq<char>>> {
    match input.renderer_kind {
        PageRendererKind::ConventionFile => Ok(NewPageRendererView::ConventionFile),
        PageRendererKind::Extension => Err(Some("扩展页面必须从 Admin Workbench 新建"@)),
        PageRendererKind::MenuTree => Ok(NewPageRendererView::MenuTree),
        _ => match table_errors {
            Some(es) => Err(if es.len() > 0 { Some(es[0]) } else { None }),
            None => Ok(NewPageRendererView::Table(page_table_draft_spec(input))),
        },
    }
}

/// The table settings of a new page: the chosen model and page size, nothing else.
pub open spec fn page_table_draft_spec(input: PageEditorInputView) -> PageRendererDraftView {
    PageRendererDraftView {
        kind: PageRendererKind::CrudTable,
        extension: None,
        table_model_id: input.table_model_id,
        page_size: input.page_size,
        tree_model_id: Seq::empty(),
        tree_label_field_id: Seq::empty(),
        tree_parent_field_id: Seq::empty(),
        table_relation_field_id: Seq::empty(),
    }
}

/// Whether a page other than `page_id` is named `name`.
pub open spec fn page_name_taken(pages: Seq<PageDefinition>, page_id: SymbolId, name: Seq<char>) -> bool {
    exists|i: int| 0 <= i < pages.len() && #[trigger] pages[i].id != page_id && pages[i].name@ == name
}

/// Whether a route has path `path`.
pub open spec fn route_path_taken(routes: Seq<RouteDefinition>, path: Seq<char>) -> bool {
    exists|i: int| 0 <= i < routes.len() && #[trigger] routes[i].path@ == path
}

/// What submitting the page editor gives: the patches to send, or the message to show (none
/// when table settings were refused without a reason). The title is trimmed and must not be
/// empty; a new page is named `derived_name`, an edited one keeps its stable name, and the name
/// must be neither empty nor another page's. Editing renames the page. Creating also needs the
/// trimmed route path, which `path_error` must not refuse and no route may have yet, and a
/// renderer; then the page and its route are inserted under the root.
pub open spec fn page_editor_submit_spec(
    input: PageEditorInputView,
    mode: PageEditorModeView,
    derived_name: Seq<char>,
    pages: Seq<PageDefinition>,
    routes: Seq<RouteDefinition>,
    path_error: Option<Seq<char>>,
    table_errors: Option<Seq<Seq<char>>>,
) -> Result<Seq<GraphPatchView>, Option<Seq<char>>> {
    let title = trim_spec(input.title);
    let name = match mode {
        PageEditorModeView::Edit { stable_name, .. } => stable_name,
        PageEditorModeView::Create { .. } => derived_name,
    };
    if title.len() == 0 {
        Err(Some("页面标题不能为空"@))
    } else if name.len() == 0 {
        Err(Some("页面标题无法生成有效标识，请包含中文、字母或数字"@))
    } else if page_name_taken(pages, mode.page_id(), name) {
        Err(Some("页面标识已存在: "@ + name))
    } else {
        match mode {
            PageEditorModeView::Edit { page_id, .. } => Ok(
                seq![GraphPatchView::Rename { target_id: page_id, name, title: Some(title) }],
            ),
            PageEditorModeView::Create { page_id, route_id, root_id, page_count, route_count } => {
                let path = trim_spec(input.route_path);
                match path_error {
                    Some(e) => Err(Some(e)),
                    None => if route_path_taken(routes, path) {
                        Err(Some("路由路径已存在: "@ + path))
                    } else {
                        match new_page_renderer_spec(input, table_errors) {
                            Err(e) => Err(e),
                            Ok(renderer) => Ok(
                                seq![
                                    GraphPatchView::Insert {
                                        parent_id: root_id,
                                        collection: ChildCollection::Pages,
                                        index: page_count,
                                        entity: GraphEntityView::Page(
                                            PageEntityView { id: page_id, name, title, renderer },
                                        ),
                                    },
                                    GraphPatchView::Insert {
                                        parent_id: root_id,
                                        collection: ChildCollection::Routes,
                                        index: route_count,
                                        entity: GraphEntityView::Route(
                                            RouteEntityView { id: route_id, name, path, page_id },
                                        ),
                                    },
                                ],
                            ),
                        }
                    },
                }
            },
        }
    }
}

pub open spec fn page_editor_result_view(r: Result<Vec<GraphPatch>, Option<String>>) -> Result<
    Seq<GraphPatchView>,
    Option<Seq<char>>,
> {
    match r {
        Ok(ps) => Ok(patches_view(ps@)),
        Err(Some(e)) => Err(Some(e@)),
        Err(None) => Err(None),
    }
}

pub open spec fn texts_view(ts: Seq<String>) -> Seq<Seq<char>> {
    ts.map_values(|t: String| t@)
}

fn page_name_in_use(pages: &[PageDefinition], page_id: SymbolId, name: &str) -> (taken: bool)
    ensures
        taken == page_name_taken(pages@, page_id, name@),
{
    let mut i: usize = 0;
    while i < pages.len()
        invariant
            i <= pages.len(),
            forall|j: int| 0 <= j < i ==> !(#[trigger] pages@[j].id != page_id && pages@[j].name@ == name@),
        decreases pages.len() - i,
    {
        if pages[i].id != page_id && text_eq(pages[i].name.as_str(), name) {
            return true;
        }
        i = i + 1;
    }
    false
}

fn route_path_in_use(routes: &[RouteDefinition], path: &str) -> (taken: bool)
    ensures
        taken == route_path_taken(routes@, path@),
{
    let mut i: usize = 0;
    while i < routes.len()
        invariant
            i <= routes.len(),
            forall|j: int| 0 <= j < i ==> (#[trigger] routes@[j]).path@ != path@,
        decreases routes.len() - i,
    {
        if text_eq(routes[i].path.as_str(), path) {
            return true;
        }
        i = i + 1;
    }
    false
}

fn new_page_renderer(input: &PageEditorInput, table_errors: &Option<Vec<String>>) -> (r: Result<NewPageRenderer, Option<String>>)
    ensures
        match r {
            Ok(renderer) => new_page_renderer_spec(
                input@,
                match *table_errors {
                    Some(es) => Some(texts_view(es@)),
                    None => None,
                },
            ) == Ok::<NewPageRendererView, Option<Seq<char>>>(renderer@),
            Err(Some(e)) => new_page_renderer_spec(
                input@,
                match *table_errors {
                    Some(es) => Some(texts_view(es@)),
                    None => None,
                },
            ) == Err::<NewPageRendererView, Option<Seq<char>>>(Some(e@)),
            Err(None) => new_page_renderer_spec(
                input@,
                match *table_errors {
                    Some(es) => Some(texts_view(es@)),
                    None => None,
                },
            ) == Err::<NewPageRendererView, Option<Seq<char>>>(None),
        },
{
    match input.renderer_kind {
        PageRendererKind::ConventionFile => Ok(NewPageRenderer::ConventionFile),
        PageRendererKind::Extension => Err(Some("扩展页面必须从 Admin Workbench 新建".to_owned())),
        PageRendererKind::MenuTree => Ok(NewPageRenderer::MenuTree),
        _ => match table_errors {
            Some(es) => {
                if es.len() > 0 {
                    Err(Some(es[0].clone()))
                } else {
                    Err(None)
                }
            },
            None => Ok(
                NewPageRenderer::Table(
                    PageRendererDraft {
                        kind: PageRendererKind::CrudTable,
                        extension: None,
                        table_model_id: input.table_model_id.clone(),
                        page_size: input.page_size.clone(),
                        tree_model_id: String::new(),
                        tree_label_field_id: String::new(),
                        tree_parent_field_id: String::new(),
                        table_relation_field_id: String::new(),
                    },
                ),
            ),
        },
    }
}

/// Submits the page editor. `derived_name` is the name that the program's identifier rule
/// derives from the trimmed title, `path_error` what its route rule says of the trimmed route
/// path, and `table_errors` the reasons, if any, for which the table settings were refused.
pub fn page_editor_submit(
    input: &PageEditorInput,
    mode: &PageEditorMode,
    derived_name: &str,
    pages: &[PageDefinition],
    routes: &[RouteDefinition],
    path_error: Option<String>,
    table_errors: Option<Vec<String>>,
) -> (r: Result<Vec<GraphPatch>, Option<String>>)
    ensures
        page_editor_result_view(r) == page_editor_submit_spec(
            input@,
            mode@,
            derived_name@,
            pages@,
            routes@,
            match path_error {
                Some(e) => Some(e@),
                None => None,
            },
            match table_errors {
                Some(es) => Some(texts_view(es@)),
                None => None,
            },
        ),
{
    let title = trim(input.title.as_str());
    let (page_id, name) = match mode {
        PageEditorMode::Edit { page_id, stable_name } => (*page_id, stable_name.as_str()),
        PageEditorMode::Create { page_id, .. } => (*page_id, derived_name),
    };
    if title.unicode_len() == 0 {
        return Err(Some("页面标题不能为空".to_owned()));
    }
    if name.unicode_len() == 0 {
        return Err(Some("页面标题无法生成有效标识，请包含中文、字母或数字".to_owned()));
    }
    if page_name_in_use(pages, page_id, name) {
        let mut message = "页面标识已存在: ".to_owned();
        message.append(name);
        return Err(Some(message));
    }
    match mode {
        PageEditorMode::Edit { .. } => {
            let patches = vec![GraphPatch::Rename { target_id: page_id, name: name.to_owned(), title: Some(title.to_owned()) }];
            assert(patches_view(patches@) =~= seq![
                GraphPatchView::Rename { target_id: page_id, name: name@, title: Some(title@) },
            ]);
            Ok(patches)
        },
        PageEditorMode::Create { route_id, root_id, page_count, route_count, .. } => {
            let path = trim(input.route_path.as_str());
            match path_error {
                Some(e) => return Err(Some(e)),
                None => {},
            }
            if route_path_in_use(routes, path) {
                let mut message = "路由路径已存在: ".to_owned();
                message.append(path);
                return Err(Some(message));
            }
            let renderer = match new_page_renderer(input, &table_errors) {
                Ok(renderer) => renderer,
                Err(e) => return Err(e),
            };
            let page = PageEntity { id: page_id, name: name.to_owned(), title: title.to_owned(), renderer };
            let route = RouteEntity { id: *route_id, name: name.to_owned(), path: path.to_owned(), page_id };
            let patches = vec![
                GraphPatch::Insert {
                    parent_id: *root_id,
                    collection: ChildCollection::Pages,
                    index: *page_count,
                    entity: GraphEntity::Page(page),
                },
                GraphPatch::Insert {
                    parent_id: *root_id,
                    collection: ChildCollection::Routes,
                    index: *route_count,
                    entity: GraphEntity::Route(route),
                },
            ];
            assert(patches_view(patches@) =~= seq![patches@[0]@, patches@[1]@]);
            Ok(patches)
        },
    }
}

} // verus!
