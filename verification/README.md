# studio

The program designer of a low-code platform, with its graph bytecode interpreter.

- `src/` is the verified library. `vm` is the interpreter of compiled function graphs, as a
  state machine that hands effects and numeric computations to its driver; `patch_queue` is
  the save queue of the designer; the other modules are the designer's rules: the definitions
  it edits (`definition`, `menu`, `model`, `value_type`, `endpoint`), what its editors submit
  (`field_editor`, `menu_editor`, `page_editor`, `model_editors`, `query_draft`, `node_edit`,
  `validation_rule`), how format nodes fill their templates (`template`), the workbench's small
  dialogs (`workbench`) and what its tables and selects show.
- `app/` drives the interpreter asynchronously against a host, converts JSON values, sends
  queued patch batches, and holds the floating-point parts of the designer.
- `tests/` runs the library on concrete values.
