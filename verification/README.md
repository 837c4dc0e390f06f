# playleft_core

Agent-first browser automation over the Chrome DevTools Protocol (CDP),
with its decisions proved in Verus.

## Layout

- `src/` — the verified library. The parameters of every CDP command the
  automation sends are built here (floating-point values, such as click
  points, are computed by the caller and handed in as their bit patterns;
  cookie records, which carry a floating-point expiry, are encoded by the
  caller and placed here), the frame of every command is built here, and
  every reply and event it reads is interpreted here, each function with a
  contract over a mathematical model of JSON (`json.rs`):
  - `protocol/` — message types, the transport's command bookkeeping (ids,
    waiting commands, routing of replies and events, shutdown) and session
    targeting;
  - `browser/` — the Chromium command line, where to look for a browser,
    reading the DevTools endpoint, browser contexts and targets;
  - `page/` — navigation, history, load states, evaluation, queries and
    keyboard input;
  - `element.rs`, `network/` — element calls, requests, responses, header
    lookup, response bodies and interception routes;
  - `text.rs`, `codec.rs`, `error.rs` — text helpers, base64 and UTF-8, and
    the error type.
  Laws that span several calls (command ids, transport bookkeeping, header lookup,
  body round trips, typing, history, the headless flag, string quoting) are
  public proof functions named `law_*`.
- `app/` — the asynchronous side: the WebSocket transport task, the browser
  process, the Browser / Context / Page / Frame / Element handles and the
  Python bindings. It performs the I/O, the waiting, the floating-point
  arithmetic and the writing of JSON text, and asks the library for every
  decision.
- `tests/` — tests of the library on concrete values.
