# mini_s3

An S3-compatible object store (buckets and objects over SQLite and the local
disk), written as a Verus library with a thin server around it.

- `src/` — the verified library:
  - `domain/` — buckets, objects, errors, the MD5-based ETag, fresh ids and times;
  - `application/` — where buckets and objects live on disk, and the bucket and
    object services, which decide after each piece of outside work what comes
    next and what a request is answered;
  - `http/` — the status, code and XML document of every answer;
  - `infrastructure/` — what the record store's failures mean, and new bucket records.
- `app/` — the server: routes, handlers, the SQLite repositories and the loop
  that performs the services' outside work (files, database).
- `tests/` — tests of the library on concrete values.
