# ratatui_widgets: list and table state, selection and focus

- `list::ListState`, `table::TableState`: scroll offset and length, each with a model view.
- `list::List`: the list widget's items and settings. `List::new` computes the index of the
  selected item, kept in range by a type invariant; for item types whose equality is known to
  follow `eq_spec` (such as integers) it is the first item equal to the selected one.
  `lemma_setter_chain_keeps_contents` carries items, selection and callback through any chain
  of setters and focus changes.
- `list::ListDirection`, `focus::Focusable`.
- `style_types`, `hashing`: the `ratatui_core` and std items that a list relies on.

`app/` holds copies of the state types that carry the `serde` and `strum` derives.
