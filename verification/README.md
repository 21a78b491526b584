# fighters

Verified decision logic for fighter status scripts of a fighting-game mod: edge slip-offs and
ledge grabs, knockback (hitlag release, ASDI, smoke, buffer rules), and character moves
(Lucario's down special, Kirby's copy of Sora's magic, Sonic's and Zelda's per-frame rules,
Zelda's Phantom, King Dedede's Gordo).

- `src/` is the library, verified with Verus. Each rule is a function from what the game
  reports (plain integers, hashes and booleans, plus the game's ids in `*Ids` structs) to
  what the script does next, with a contract over spec functions. Laws that span calls are
  public proof functions.
- `app/` holds the game hooks: they read the game's state, call the library, and perform
  the chosen steps. Float arithmetic stays there.
- `tests/` runs the library on concrete values.
