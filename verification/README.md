# docstore

A store of Automerge documents whose decisions are proved.

Every document is a file with the extension `.automerge`; a SQLite table holds
the ids with the time of their last modification. The library in `src/` decides
what each request needs and in which order, merges changes into documents, and
keeps the set of known ids. Files, the table and the user interface are the
business of `app/`: it performs one `Action` after another and hands the outcome
back to the task it belongs to.

| module     | content                                                          |
|------------|------------------------------------------------------------------|
| `error`    | the errors and their texts                                       |
| `document` | the stored form of documents, and merging a change into one      |
| `doc_ids`  | the set of known ids                                             |
| `action`   | the outside work, and how it can fail                            |
| `task`     | a request under way, step by step                                |
| `startup`  | where the files are, and how opening the store can fail          |
| `store`    | how each request begins, and what its end means for the store    |
| `commands` | the answers given to the user interface                          |
| `laws`     | what holds across requests, over a model of files and rows       |

Verified code calls `automerge`, `chrono` and `directories` through small
trusted functions. Each says in its comment what it claims of the call. The
calls that can panic on what is stored, sent or read from the clock run on a
`tokio` task, so that a panic comes back as an error.
