# getdub

A duplicate-file finder that keeps a persistent index of the files on local
volumes in an SQLite database, hashes their contents in two stages (an XXH3
hash of the first 4 KiB, then a BLAKE3 hash of the whole file) and reports
groups of files with equal hashes.

Layout:

- `src/` is the library, written in Verus and verified: drive and volume
  naming, scan filters and the entries a scan produces, the decisions taken
  when rows are written to the index, hashing decisions (through the
  `xxhash-rust` and `blake3` crates), the include/exclude pattern lists
  (through the `glob` crate), log level selection (through the `log` crate),
  and the checks that `getdub verify` runs against an index, with the laws
  that tie them together.
- `app/` is the command-line program: argument parsing, the SQLite database,
  walking directories and reading the NTFS master file table, Windows device
  queries, file reading and memory mapping, progress display and logging.
- `tests/` exercises the library on concrete values.
