# noosphere

The decision logic of a Noosphere node, verified with Verus.

A node stores blocks and values, keeps its sphere in step with the spheres of
its peers, and syndicates revisions to an IPFS node. Most of that is input and
output. What is to be done next, and what to make of the outcome, is decided
here, without doing any of it.

## State machines

Every task is a state machine. A function starts it, `action` tells what has
to be done next, `step` takes in what came of it, and `outcome` tells how the
task ended once it is over. An event that does not answer the pending action
changes nothing. The contracts say exactly which phase follows which event, and
the laws, which are public proof functions named `law_...`, say what holds of a
task over any course of events.

Values that the decisions only pass on, such as identities, revisions and
errors, are type parameters.

## Modules

- `sqlite`: key-value stores that are tables of a SQLite database. Commands run
  in transactions. `database` is a model of SQLite, against which the laws say
  that commands are atomic and that a read gives back the last write.
- `iroh`: storage of blocks as blobs that are addressed by their hash.
- `syndication`: uploading the revisions of a sphere to an IPFS node, with a
  checkpoint and a Bloom filter of what has been uploaded.
- `helpers`: simulated spheres, link records, chains of spheres, and walks over
  a sphere.
- `runner`, `runner_laws`: starting a node of the name system.
- `serve`: starting a gateway.
- `address`, `text`, `content`: URLs of socket addresses, decimal numbers, and
  kinds of content.

`app/` runs the state machines: it performs the actions with Tokio, rusqlite
and iroh, and leaves what other parts of a node provide to traits.
