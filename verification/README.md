# tonk_game

The logic of a small social-deduction game server, verified with Verus.

- `src/` is the verified library: the data model (`model`), the storage keys
  (`keys`), role assignment when a game starts (`roles`, drawing from `rand`
  through `random`), and one state machine per request handler
  (`post_game`, `post_player`, `game_players`, `game_status`), plus the
  record building of the sync service (`sync_client`). Each machine takes
  the result of a store read or write and says what to do next.
- `app/` is the HTTP server (actix-web), the Redis store and the GraphQL
  client of the sync service; it drives the machines and converts between
  the library's types and their serialized forms.
- `tests/` runs the library on concrete values.
