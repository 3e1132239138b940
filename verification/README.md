# voice_admission

A verified library for admitting spoken input to a conversation. It decides who may submit, which
turn a spoken handoff belongs to, and it keeps the durable receipts by which a handoff is never
submitted twice.

`src/` is written in Verus. Each type has a model, each operation is a function on models, and the
executable code is proved to do what that function says. The files whose names end in `_laws` state
what follows for every series of requests.

| Module | Subject |
| --- | --- |
| `voice_control` | provenance of input, the voice lease, tickets and the effect boundary |
| `origin` | the origin of a handoff, made of its identities and never of its text |
| `session` | the lifecycle of a native session, whose identity the provider seals |
| `routing` | which turn the output of a handoff belongs to, and its cancellation, whose handle it makes by an outside call |
| `receipt`, `store_model`, `store` | receipts, the tables of the queue and its requests |
| `queue_failure`, `host` | what a host tells the queue's users and hands on to the queue |
| `ids`, `json`, `cancellation`, `requested_cancellation` | the outside crates that the library calls, and what is trusted of them |
| `text`, `text_map` | plain text and maps keyed by it |

`app/` holds the host's side: locks, deliveries to observers, SQLite and serialized forms. `tests/`
runs the library with the outside crates linked.
