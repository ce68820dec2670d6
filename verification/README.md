# RSS Intelligence — verified core

The decision-making core of an RSS aggregator that runs as a Cloudflare
Worker, written in Verus: every function in `src/` carries a contract that the
verifier proves.

- `src/` — the library (`rss_intelligence`):
  - `feed` — RSS 2.0 / Atom parsing over the `quick_xml` token stream, the
    dedupe hash, and the law that every parsed article is complete.
  - `time`, `digits` — the canonical `published_at` form
    (`YYYY-MM-DDTHH:MM:SSZ`), with the laws that it sorts as text exactly as
    the instants sort in time and that normalisation is idempotent on it.
  - `urls` — canonical feed identity, the lexical fetch guard, redirect
    resolution.
  - `fetch`, `refresh` — the hardened feed GET (every hop guarded, redirect
    and size caps) and the refresh pipeline (conditional GET, 304 handling,
    subscription gate, bounded inserts, exponential back-off) as state
    machines that the worker drives.
  - `queue`, `scheduler` — the job payload contract, run bookkeeping and its
    laws, due-feed selection and the per-minute run key.
  - `api`, `pool`, `identity`, `sources` — routing, CORS, device identity,
    shared-pool membership, and the dormant user-scoped source layer.
- `tests/` — executable tests of the library.
- `app/` — the Worker itself: HTTP, D1, KV and queue plumbing around the
  library (not verified).

The outside crates (`quick_xml`, `url`, `chrono`,
`md5`) are reached only through the trusted wrappers marked
`#[verifier::external_body]`, whose contracts are documented where they are
declared.
