# tidybee_agent

The TidyBee agent watches directories, keeps a database of the files in
them, grades each file with tidy rules (misnamed, duplicated, perished) and
reports every change to the TidyBee hub.

- `src/` is the verified library: file records and their database rows,
  rule parameters, the tidy rules and grading, duration parsing, the
  classification of file-system notifications into file events, the hub
  connection steps, option checking, log levels, sorting and the text
  handling they share. Each public function states its behaviour in
  `requires`/`ensures`, and the laws that relate functions are proof
  functions next to them.
- `app/` is the program around it: configuration files, logging, the
  SQLite database, the disk, the file watcher, the HTTP server and the
  HTTP calls to the hub.
- `tests/` exercises the library on concrete values.
