# engai

An English-learning notebook: words, phrases and readings are kept in a SQLite
database and mirrored as markdown notes, reviewed on a spaced-repetition
schedule, and reached from a command line and a web interface.

- `src/` is the library, written in Verus. Each public function states what it
  returns in `ensures`, over spec functions on `Seq`, `Map` and plain values,
  and Verus proves it. The calls into outside crates (gray_matter's front
  matter parser, chrono's date formats, the home directory from dirs) sit
  behind small trusted functions whose contracts say what those crates
  document.
- `tests/` runs the library on concrete notes, settings and key presses.
- `app/` is the program around the library: command line, database, files,
  web server, and the floating-point part of the review schedule.
