# snake_online

The game logic of an online multiplayer snake game whose server is a
SpacetimeDB module, verified with Verus.

- `src/` is the verified library: the board and its moves (`direction`,
  `position`), the rows a game keeps and the rows a new game starts with
  (`tables`), what each request writes given the rows it reads (`reducers`),
  the views that players subscribe to (`views`), and properties that hold
  across requests (`laws`).
- `app/` is the SpacetimeDB module: the tables, reducers and views, which read
  rows, call the library and write what it returns.
- `tests/` runs the library on concrete games.
