# dopewars

A street-trading game for one player: thirty days to buy goods low and sell
them high across six districts of New York, with a loan shark whose debt grows
ten percent (and at least one unit) a day, a hospital, and police, muggers and accidents on the road.

- `src/` is the verified library (Verus): the catalog of goods and districts,
  the player, the market with its random prices and price history, the
  loan shark's interest computed exactly as single-precision arithmetic rounds
  it, the market analysis, and the game itself as a state machine whose every
  action has a contract.  `src/laws.rs` and the `law_` proof functions in
  `src/interest.rs` state the properties that span several actions.
- `app/` is the graphical front end (eframe/egui): it draws the state, turns
  clicks into calls of the library, and renders log entries as text.
- `tests/` runs the library on concrete games.
