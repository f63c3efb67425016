# hunter_town

The authoritative town simulation of a hunter-village game server, written
in Verus. The server owns every progression and economy outcome: buildings
and their upgrades, the Hunter roster, hunts and loot, trading-post
settlements, shop purchases and crafting, gear enhancement, product services
(inns, restaurants, the Infirmary), and the 10 TPS simulation step:
cooldowns, the healing policy, Infirmary walks and treatments, trades
settled on arrival at the Trading Post and automatic sales of requested
loot, run against the positions recorded for the Hunters' world agents. A command
that cannot be honoured is refused with a named blocker and leaves the
durable state unchanged.

## Layout

- `src/` — the verified library. Each public function states in its
  contract what it returns or changes; the laws that relate several calls
  (a refused command changes nothing, a settled sale conserves gold, a
  replayed command id is answered without a second effect, time banked in
  two steps ends where one step of the summed time can end, on the same
  clock) are public proof
  functions. Session state lives in `session.rs`; commands are dispatched
  in `session_commands.rs` and handled in the `session_*` modules; the
  snapshots the client renders are built in the `*_projection.rs` modules.
- `tests/` — tests on concrete values, run against the compiled library.
- `app/` — what stays outside the verified library: decoding content files
  with serde, the serde copies of library types sent on the wire, and the
  formulas and evidence records that hold floating-point values.
