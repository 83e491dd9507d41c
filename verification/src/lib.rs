//! Verified core of the studio plugin: the definition model that the
//! designer edits, the pure rules the designer applies to it, and the
//! graph bytecode interpreter.

pub mod text;
pub mod symbol;
pub mod options;
pub mod json;
pub mod bytecode;
pub mod vm;
pub mod operators;
pub mod model;
pub mod definition;
pub mod function_graph;
pub mod function_node;
pub mod validation_rule;
pub mod form;
pub mod field;
pub mod model_designer;
pub mod query_draft;
pub mod field_editor;
pub mod menu_editor;
pub mod object_fields;
pub mod node_edit;
pub mod page_renderer;
pub mod model_editors;
pub mod endpoint;
pub mod value_type;
pub mod patch;
pub mod patch_queue;
pub mod menu;
pub mod page_editor;
pub mod template;
pub mod workbench;
