# fenlu

A media organizer driven by scripts: source scripts produce media records, transform
scripts rewrite them, filter scripts decide which to keep, and front ends show the result.

`src/` is the verified library (Verus):

- `cli` — the batch tool's command line: source mode, script roles by glob, database plan.
- `pipeline` — the script table (`KeyedList` from `keyed`), the roles of scripts, and what
  each stage (source, transform, filter) does to a batch; `protocol` holds the records and
  requests the stages exchange with scripts.
- `paths`, `order`, `text`, `ids` — script file names and the whitelist, the order of paths,
  character-level string operations, request ids.  File names and the order of paths are
  stated for paths that `std::path` reads alike on every platform (`/` the only separator,
  no `:`); on others the answer is the platform's.
- `metadata` — source metadata and the check on its URI.
- `config`, `viewer`, `models` — settings, and the state behind the viewer and the window.
- `sink` — the sink front end: its protocol, actions, media fields and media window.

`app/` is the batch tool itself (`main.rs`) with the I/O around the library: reading the
command line, the database, lua scripts, script processes and the sink's request loop.
