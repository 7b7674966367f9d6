# morphlings

The decision logic of a small music player server, verified with Verus.

- `src/apis.rs`: the data exchanged between the player, its clients and its
  listeners (resources, commands, events, play modes, HTTP responses).
- `src/player.rs`: the playlist state machine. `PlayerModel` is its abstract
  state and every transition (`play_next`, `play_previous`, `change_play_mode`,
  `tick`, `step`, `start`) is a spec function over it; `PlayerManager`
  implements them and returns the effects that the audio output and the event
  channel carry out.
- `src/player_laws.rs`: properties of the state machine across operations.
- `src/resource.rs`: which files of a resource directory are collected.
- `src/http.rs`: HTTP statuses and responses of the API.
- `app/`: the server itself: config file, directory walk, audio output, event
  and command channels, HTTP routes.
