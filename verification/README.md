# movie_worker

Background jobs for a streaming stack: it takes orders from `movie_api` and
runs ffprobe, HLS transcodes, metadata scrapes, filesystem ingests and
Radarr/Sonarr imports into an S3-compatible bucket.

## Layout

- `src/` — the library, verified with Verus:
  - `state.rs`: job statuses, job records, the registry of submitted jobs,
    the text form of job ids;
  - `handlers/`: what the HTTP endpoints decide (submission and status of
    jobs, webhook field extraction, notices, presign defaults);
  - `jobs/`: job arguments, the runner chosen for a kind, the status updates
    around a run, and what each runner reads and writes;
  - `storage/`: backends, object metadata, the S3 configuration, request
    construction and SigV4 signing (header and presigned), LIST parsing;
  - `arr/`, `client.rs`: Radarr/Sonarr and movie-API call targets and bodies;
  - `config.rs`, `error.rs`, `text.rs`: configuration, endpoint errors, and
    the string toolkit (search, split, trim, decimal, hex, percent-encoding).
- `app/` — the service around it: `main`, the axum router and handlers, the
  reqwest transports, the tokio job runners, environment reading.
- `tests/` — tests of the library.

## Endpoints

| Method | Path                 | What it does                              |
|--------|----------------------|-------------------------------------------|
| GET    | `/healthz`           | liveness                                  |
| POST   | `/jobs`              | queues a job (`probe`/`transcode`/`scrape`/`ingest`) |
| GET    | `/jobs/:id`          | a job's state                             |
| POST   | `/streams/notify`    | notice of a new stream from `movie_api`   |
| POST   | `/webhooks/radarr`   | Radarr import notice, starts an `import`  |
| POST   | `/webhooks/sonarr`   | Sonarr import notice, starts an `import`  |
| POST   | `/storage/presign`   | presigned GET URL of an object            |
| GET    | `/storage/list`      | objects under a prefix                    |
