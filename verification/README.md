# wasabi — verified view logic

The decision logic of the wasabi desktop messenger's views and of its
benchmark tools, written in Verus and proved against its contracts.

- `src/` — the verified library, one module per concern:
  `text` (character-level helpers: trimming, whitespace, decimal and
  fixed-point rendering), `binary64` (quotients rounded to doubles and
  printed with fixed decimals, as the benchmark reports and size labels
  print them), `model` (chats, contacts, messages),
  `avatars` (the profile-picture cache), `composer`, `chat_list`,
  `chat_state`, `conversation`, `emoji`, `forward`, `group_admin`,
  `media_viewer`, `message_actions` (stars, reactions and retries shown
  at once and put back on refusal), `message_details`, `new_group`,
  `outbound`, `pairing`, `right_panel`, `root`, `session`, `settings`,
  `starred`, `typing`, `soak` (reading the soak run's process figures and
  gating its leak verdict),
  and `large_db` (the synthetic-history generator and report of the
  large-database benchmark).
- `tests/` — executable tests of the library.
- `app/` — a small command-line tool that recomputes the soak benchmark's
  trend decision from the CSV a soak run prints; it parses and gates with
  the library, and its slope and mean arithmetic is floating point and
  stays outside the verified library.

QR codes are encoded by the `qrcode` crate; the library states what it
relies on from it in the contract of the one function that calls it.
