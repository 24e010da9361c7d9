# doc_service

The document service of a team wiki: spaces with members, a tree of folders
and pages in each space, and page text kept under an optimistic lock with a
stored history of earlier versions.

- `src/` is the verified library (Verus). It holds the records of the doc
  schema as plain values (`entity`), the error answers (`error`), text
  trimming as request validation uses it (`text`), UUID text (`ids`, over the
  `uuid` crate), the decisions of the data-access layer (`repo`: new records,
  membership and edit rights, the optimistic-lock update plan), the checks the
  HTTP handlers make (`routes`) and the nesting of a space's nodes (`tree`).
  The laws of the library are proof functions named `law_*`.
- `app/` is the service around it: sea-orm entities and migration, the
  queries, and the axum handlers, which call the library for every decision.
- `tests/` exercises the library, including the service's flows with the
  database's part played by the tests.
