# clotho

A personal work-management workspace: entities (programs, tasks, meetings,
notes, people, ...) kept in a directory, with tags, an activity log, content
files, draft extractions, surfaces, a git-backed sync, tools answered over
MCP, and a terminal dashboard.

The library in `src/` is verified with Verus. It holds the workspace's
rules and the text the tools answer with:

- `store/` — entity and relation types, the workspace layout and its
  checks, tag and event logs, content paths, surfaces, ontologies, the
  processing log, draft extractions and federated queries.
- `mcp/` — tool arguments, routing of tool calls by name, entity
  resolution by ID prefix, and the replies of the tools.
- `sync.rs` — the decisions of the git sync: ignore rules, refspecs, the
  outcome of a sync, and how history is pruned.
- `tui/` — the dashboard's text editor, navigator tree, panel and key
  handling, and saved display state.
- `text.rs`, `path.rs`, `ids.rs` — strings, paths and entity IDs with
  their specifications.

`app/` is a command-line front end that does the I/O around the library:
the file system, SQLite, git and JSON/TOML files. `tests/` exercises the
library on concrete values.
