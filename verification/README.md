# ferrumc_app

The decisions of a Minecraft server application, as a library verified with Verus:
configuration, commands, the login and play state machines, chunk streaming, the player
inventory and its windows, block edits at the plugin boundary, and the driver of the
simulation.

Every function of `src/` states in its contract what it returns or changes, and Verus
proves it. Laws that span functions stand beside them as public proof functions.

## Layout

- `src/` — the library.
  - `config`, `app_config`, `cli`: limits, defaults, merging and the command line.
  - `text`, `wire`, `ieee754`, `math`, `time_span`: text, variable-length integers,
    floating-point numbers as bit patterns, positions and durations.
  - `command`, `command_packets`, `command_tree`, `tab_complete`, `session_command`:
    the commands, their packets, their tree and their order of effects.
  - `chunk_set`, `chunk_stream`: which columns a client holds, and the bounded steps
    toward its view.
  - `inventory`, `window`: the slots, the carried stack and container clicks.
  - `login`, `join`, `play`, `play_body`, `movement`, `chat`, `rate_limiter`,
    `serverbound_budget`, `outbound`, `block_edit`: one connection.
  - `delivery`, `sim_command`, `persistence`, `driver`, `roster`, `world_time`: the
    driver of the simulation.
  - `observe`: names and labels for traces and metrics.
- `tests/` — tests of the library.
- `app/` — the binary: arguments, the TOML file, logging and signals, and the loops of a
  connection and of the driver over the traits through which protocol, simulation,
  plugins and storage attach.

## Trusted

Three contracts are believed without proof: that of `String::push`, that of the function
which builds a UUID from two halves, and the naming of the `Debug` form of a string.

Floating-point values are held as their bit patterns; the binary parses and prints them.
