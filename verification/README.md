# noisy_shuttle

Reusable sessions over one encrypted connection: several requests, one after the
other, go through a session that both sides have agreed to reuse.

- `src/` is the library, verified with Verus. It does no input or output. The
  session loop, the relay, the pool, the negotiation and the keepalive are state
  machines: the caller reports what happened, and is told what to do.
  - `session/`: frames on the wire, negotiation, keepalive, lifecycle
  - `server/`: the session loop and the relaying of a request
  - `client/`: the pool of idle sessions, and what the client does with its options
  - `opt.rs`: the options and the rules that they keep
  - `text.rs`, `time.rs`, `error.rs`, `addr.rs`: the plain values all of it works on
- `app/` runs these machines on tokio streams, reads the command line and writes
  the log.
- `tests/` runs the library.

Public proof functions whose names start with `law_` state what holds of the
library as a whole, among them:

- what a decoder reads is what an encoder wrote, also for streams of frames;
- client and server end a negotiation with the same agreement;
- a session carries no more requests than it may, and does not end without a word;
- a request carries both byte streams whole, in order and counted, tells the
  client of its target's end once, and answers every ping;
- a pool never holds more idle sessions than it may, and hands out only sessions
  that keep all limits;
- a retry is granted once, and never after payload was relayed.
