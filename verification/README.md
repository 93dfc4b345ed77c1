# myconnect

The logic of MyConnect's desktop UI, verified with Verus: what its pages,
its tray menu and its dialogs show, and what each action decides, as plain
values with stated and proved contracts.

- `src/` is the verified library. Each module states its functions'
  results over spec functions and views; laws that span several calls
  (what a second call undoes, what every step keeps) are public proof
  functions beside the code they speak of. Calls into `sha2`, `i18n-embed`,
  `fluent-syntax` and std's lowercase mapping stand behind small trusted wrappers whose
  doc comments say what is assumed of them.
- Sentences the original takes from its `.ftl` files are named by the
  library as messages (`words.rs`: an id and its arguments); the
  `describe*` functions beside them give the en-US sentence.
- `tests/` runs the library on concrete values.
- `app/` is the desktop around it: the single-instance socket, the login
  item's files, opening files and links, the window's placement on disk,
  the messages looked up in the languages chosen, and where the
  pseudo-locale's file is offered. It hands the library plain values
  and does what the library decides.
