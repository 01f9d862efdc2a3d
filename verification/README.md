# interplex

A string cache served over gRPC. The library (`src/`) holds the cache logic
and the request handling, verified with Verus; `app/` is the program around
it: argument parsing, the gRPC server, and the file reads and writes of the
file-backed cache.

- `key` — how keys are normalised (split at white space, joined with `_`).
- `text` — building strings: one trusted append, decimal numbers.
- `cache::store` — the key-value store behind both caches.
- `cache::simple` — the memory-only cache (`Cacheable`).
- `cache::disk` — the file-backed cache; operations that need a file name
  the file and are finished by a second call with what the file held.
- `server::cache` — what each request is answered; `server` — configuration.
