# lau-inter-shell

A bus through which shells exchange messages and briefings, gated by trust
levels, routing rules and reachability, with machine-checked contracts.

- `src/` — the verified library: trust levels and message vocabularies
  (`kinds`), messages (`message`), peers (`peer`), routes (`route`), the bus
  (`bus`), the text layout of briefings (`briefing`), text helpers such as
  the identifier hash (`text`) and clock readings (`clock`).
- `app/` — what the library cannot hold: JSON persistence through serde
  copies of the library's types, and briefings, whose measurements are
  floating point.
- `tests/` — tests run against the compiled library.
