# vo_gix

The git extension behind the `RawCall(op, input)` entry point: a caller names
an operation (`open`, `init`, `discover`, `status`, `branches`,
`current_branch`, `head`, `head_oid`, `log`, `is_bare`, `workdir`,
`repo_path`, `close`), passes its arguments as a JSON object, and receives a
JSON payload or an error text.

- `src/` is the verified library: the table of open repositories and its
  handles, the reading of requests, the error texts, and the building of
  every reply from what the repository gives (commit summaries, branch
  lists, status lines, log limits), plus the stand-in entry point used where
  git cannot run.
- `app/` holds what the library leaves out: the process-wide table behind a
  lock, the repository reads through gix, and the JSON encoding of replies.
- `tests/` exercises the library on concrete values.
