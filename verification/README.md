# anotaai

A verified core for a small catalog service: restaurant owners register
products and categories, and each owner's menu is published to object storage
as a catalog that groups the owner's products by category.

- `src/` is the library, verified with Verus:
  - `model`: products, categories, catalog entries and catalogs, with their
    mathematical values;
  - `query`: the equality filters that select an owner's documents and the
    change that files a product under a category;
  - `notice`: the `owner: <owner>` notice and how the owner is read back;
  - `workflow`: every request of the service as a state machine that asks for
    database and messaging actions and decides the answer;
  - `laws`: what holds of every run of those state machines;
  - `publication`: the decisions of the catalog publishing job.
- `tests/` runs the library on concrete values.
- `app/` is the HTTP service (axum, MongoDB, SNS) and the publishing job
  (Lambda, reqwest, S3); it performs the actions the library asks for.
