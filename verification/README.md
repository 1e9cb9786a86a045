# rust_web_demo

A small task-list web application. The library (`src/`, verified with Verus)
holds what the application decides; the program (`app/`) does the input and
output around it with Iron, PostgreSQL and Redis.

- `utils::text`: decimal rendering, `i32` parsing with the rules of
  `i32::from_str`, joining and substring search.
- `utils::config`, `utils::settings`: the settings file, parsed and looked up
  with the `config` crate.
- `models`: accounts, tasks and times (formatted and parsed with `chrono`).
- `controllers`: replies (redirects, pages, JSON, text), the login gate, the
  answer to unknown routes, task ids from paths and tasks from forms.
- `cache`, `services::task`, `repository`: the read-through cache protocol of
  the task list and of cached queries, with the laws that a listing returns
  the repository's list and that every change clears the cached list.
- `app/`: the server, the routes, sessions, the database and cache access.
