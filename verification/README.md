# web_scaffolding

The parts of a web application template that decide something, verified with Verus, and ordinary
Rust around them that listens, reads files and talks to a database.

`src/` is the verified library.

- `json`, `json_merge`: JSON documents and how they are merged
- `config`, `database`, `startup`: how a configuration is put together, which database is used,
  and in which order a server starts
- `network`: where a server listens, how it learns the addresses of its clients, and where clients
  of plain HTTP are redirected to
- `errors`: what failures of request handlers are answered with
- `assets`: which embedded files are served
- `clock`, `scheduler`, `timed_uuid`: points in time, and UUIDs that tell one
- `store`: values in memory that expire
- `cookies`, `session`: typed and signed cookies, and sessions that are found by them
- `text`: numbers in decimal

`app/` is the template itself: implement `WebServer` and call `run!`.

`tests/` runs the library on concrete values.
