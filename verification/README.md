# palpites

The core of a football prediction-pool service ("bolão"), verified with Verus:
members of a pool predict match scores, results are scored by the pool's rules
and members are ranked.

- `src/` is the verified library. Each use case of the service is a set of
  decisions from plain values to plain values, each with a contract: value
  validation (`domain`), scoring and ranking (`scoring`, `ranking`), the
  prediction window (`predictions`), results, histories and recomputation
  (`results`), notification preferences and fan-out (`notifications`),
  reminders and delivery (`jobs`), pools and memberships (`pools`), the
  catalog (`matches`, `teams`, `tournaments`), accounts (`auth`), uploads
  (`files`), settings (`config`) and the HTTP-facing shapes and answers
  (`api`). Laws that span several functions are public proof functions whose
  names start with `law_`.
- `app/` drives the library: the ports to the database and external services,
  the async use cases that load what a decision needs and store what it
  decided, the JSON copies of the bodies, the HTTP plumbing and the process
  settings.
- `tests/` exercises the library on concrete values.
