# photosync

Copies photos from camera memory cards into directories organised by camera
and date (`<target>/<camera dir>/YYYY/MM/DD/<file>` by default, or any
template made of `{camera}`, `{year}`, `{month}` and `{day}`).

The decisions of the program are a library verified with Verus (`src/`):

- `paths`: sanitising text shown in a terminal and file names written to disk;
- `config`: camera mappings (kept only when relative and free of `..`,
  longest key first), template validation, `$HOME` / `$XDG_PICTURES_DIR`
  expansion, directory resolution;
- `pipeline`: the destination directory for a camera and a date, proved to
  stay under the target directory;
- `handler`: the copy stage as a state machine from the caller's reports
  (file found, stat, copy, comparison) to the messages and the next request;
- `scan`, `compare`: which entries the scan passes over, which metadata is
  kept, and the verdict on each pair of compared chunks;
- `progress`, `counts`, `text_mode`, `tui`: progress messages, the summary
  and its report, and the state and texts of both progress displays.

`app/` is the program around it: command line, configuration file, threads,
file-system work and terminal drawing.
