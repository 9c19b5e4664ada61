# rustube

A self-hosted video library: a background scan stores the downloaded videos,
their channels, tags, chapters and hand-written playlists in SQLite, and a web
front end lists, searches and plays them, remembering how far each video was
watched.

- `src/` is the library, verified with Verus: the records and how they are
  stored and read back (`model`), what the background jobs compute from the
  files they read (`jobs`), what the web front end decides (`http`), dates
  and instants (`date`) and text formatting (`text`).
- `app/` is the server around it: command line, SQL, HTTP, file reading and
  the job loops.
- `tests/` runs the library on concrete values.
