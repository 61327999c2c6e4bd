# marktext_ru_patcher

Adds the Russian localization to an installed MarkText editor, and takes it
out again.

- `src/` is the verified library:
  - `text` — search, replace and insertion on character sequences, with
    their specifications and lemmas;
  - `patch` — the edits of MarkText's main-process and renderer bundles,
    their specifications and the laws proved of them (the edits are
    idempotent on the bundles they are meant for, and leave Russian listed);
  - `locale` and `json` — turning `ru.json` (with or without a byte order
    mark) into compact JSON without one, through serde_json;
  - `paths` — the layout of an installation and of the unpacked `app.asar`;
  - `asar` — the `npx @electron/asar` command lines and their outcomes;
  - `workflow` — the steps of a patch run and of a rollback: which step
    follows a success, and that a failure ends the run with its error.
- `app/` holds the console, file and process work: it asks the library what
  to do and does it.
- `tests/` exercises the library on concrete inputs.
