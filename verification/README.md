# ffchess_client

The browser client of ffchess, a real-time multiplayer chess game, with its
logic verified by Verus.

- `src/` is the verified library: the reducer that merges server snapshots
  with the player's queued premoves (`reducer`, `update`, `premoves`), what a
  server message and a tap on the board lead to (`net`, `input`, `ghosts`),
  the landing, join and rejoin flow (`flow`, `ui_state`, `storage`,
  `browser`), the chat overlay's decisions (`chat`), the scoreboard, mode
  ordering, colour parsing and text helpers. `laws` states properties that
  span several functions.
- `tests/` runs the library on concrete values.
- `app/` is the Yew front end around it: the websocket connection, local
  storage, the canvas, the camera and the screens.
