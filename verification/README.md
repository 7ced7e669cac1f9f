# usage-limit-wait

What a chat client does when an account runs into its usage limit in the middle of a
turn: it waits until the limit resets, shows a countdown and the choices to continue
sooner, and then retries.

- `src/clock.rs`: instants and durations as plain values; the clocks they are read from.
- `src/quota_wait.rs`: how long a turn waits, what it announces, and in which order.
- `src/countdown.rs`: the text of the countdown.
- `src/text.rs`: lengths, lines, blank text and control codes.
- `src/backend_banner.rs`: the banner of the account backend and its recovery choices.
- `src/chat_widget.rs`: what the chat widget wants done as a wait begins, ticks and ends.
- `src/pane.rs`: what the user sees once that is done, and what holds of it.

The library is verified with Verus. `app/` holds what surrounds it: the asynchronous
wait, the decoding of payloads, and the screen.
