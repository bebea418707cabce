# sweepie_core

The engine of Sweepie, a disk-space reclaimer for developer machines: it
indexes a volume, recognizes build artifacts and caches that can be rebuilt
(`node_modules`, Rust `target/`, Python environments, .NET/Java caches, IDE
and Unity caches, stale installers, `Windows.old`), checks that removing them
is safe, and removes them to the Recycle Bin or permanently.

The library in `src/` is written in Verus and verified:

- `scanner/` — the in-memory index (records, child lists, case-insensitive
  name tables), subtree totals, the directory-walk and MFT ingestion steps,
  and the saved index with USN-journal deltas and continuity checks.
- `classifier/` — the per-ecosystem rules and the pipeline that classifies
  records, suppressing candidates below an accepted one.
- `safety/` — the Git, cloud-placeholder, lock and junction verdicts, with the
  cached Git check built on `git2`.
- `cleaner/` — the cleanup decisions as a state machine, and the history log
  records and reports.
- `output.rs` — the scan summary and the human-readable table.
- `model/`, `text.rs`, `paths.rs` — the data model, size formatting, and the
  string and path helpers.

`app/` holds the command-line tool and the C interface: argument parsing,
file-system reads and deletions, JSON files, and the Windows-only system
calls. It drives the library and prints what the library formats.

`tests/` exercises the library on concrete values.
