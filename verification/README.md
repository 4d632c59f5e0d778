# fedetivity

Automates a Mastodon account: websocket clients read the federated timeline,
turn each text message into an `Activity`, and a determinator turns each
activity into a `Job` for a worker.

- `src/` is the verified library. It holds the decisions of each actor as a
  state machine (`fed_client`, `transmitter`, `stream_client`,
  `determinator`), the messages, and the proofs of what holds over whole runs
  of events (one activity per text message, a stopped client stays silent,
  a client stops exactly on a stopping event).
- `app/` is the actix program around it: it connects the websockets, reads
  them, and carries out the actions that the library decides on.
