# openmicc

An open-mic sign-up server and its command-line client. Users connect over a
websocket, are greeted and subscribed to the sign-up list, sign up and get a
receipt, and can take the stage or watch it.

## Layout

- `src/` — the library, written in Verus and verified:
  - `signup_receipt` — receipts: four bytes shown as eight lowercase hex
    digits; parsing, display, and the law that a receipt's text parses back
    to it.
  - `signup_list_entry` — ids (with decimal parsing), entry texts, entries and
    their pairs with receipts.
  - `signup_list` — list snapshots and the list keeper: subscribers, the
    update counter and the fan-out of announced sign-ups.
  - `subscribers` — a set of subscribers by key.
  - `redis_subscriber` — fan-out of one pub/sub topic.
  - `user_session` — the messages between client and server and the session
    state machine (welcome, onboarding, requests, websocket frames).
  - `greeter` — the onboarding checklist.
  - `stage` — the current performer and the viewers.
  - `repl` — the client's command language: word splitting, parsing, help
    text and what each line leads to.
  - `text` — Unicode white space, word splitting and string comparison.
  - `constants` — Redis keys and topics.
- `tests/` — tests of the library.
- `app/` — the programs around it: actors, Redis, mediasoup, the HTTP server,
  JSON forms of the messages, and the REPL client (`serve` and `client`
  subcommands).
