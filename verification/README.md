# bvs_core

The native side of the *balatro-vs* mod (versus matches for Balatro), as a
verified library.

- `src/` — the library, verified with Verus: the match state machine
  (`network`), the game-side event queue and its Lua calls
  (`game_manipulation`, `game_event`, `lua_call`), cards (`card_conf`), the
  updater's decisions and version ordering (`updater`, `version`), the native
  functions as the game calls them (`modules`, `bridge`), the relay
  transport's bookkeeping and its worker's rounds (`transport`), a small
  HTTPS client's logic (`http`), console helpers (`platform`), and the
  log files' rotation and names (`logs`).
- `app/` — the unverified rest: globals, the Lua bridge and its JSON, the
  WebSocket relay worker, downloads and unpacking, serde copies of the
  library's types.
- `tests/` — tests of the library on concrete values.

The library decides; the outside world acts. Connection work, Lua calls and
updater work are queued as commands (`NetCommand`, `LuaCall`,
`UpdaterCommand`) that `app/` carries out in order.
