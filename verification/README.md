# webtransport_client

A WebTransport client for the browser. Everything it decides is a verified library; what
talks to the browser is a thin layer around it.

- `src/` is the library, written in Verus. It does no I/O: each part is told what happened
  and answers what is to be done next.
  - `reader`, `datagram`, `stream`: reading and writing with one operation in flight, such
    that no byte and no datagram is lost or repeated.
  - `connection`: opening a connection, and the streams and datagrams on it.
  - `event`, `client`: the course of a session and what it tells.
  - `task`: the work on one stream, sent in small chunks with pauses between them.
  - `text`, `view`: what a person sees, and what the buttons ask for.
  - `buffer`: byte buffers.
- `tests/` runs the library on concrete values.
- `app/` is the page itself: it performs what the library asks for.

What is believed without proof stands in small wrappers: what `bytes::Bytes` does with the
bytes that it holds and how it writes them (`buffer`), that `url` makes the same of the same
address (`view`), and that the standard library quotes the same text in the same way
(`text`).
