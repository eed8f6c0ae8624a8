# nmixx

Host-side library and command line for NMIXX Motor Studio: it talks AXDR over
CAN FD frames carried in a USB CDC envelope to an AxDr motor drive, reads and
writes its parameters, starts its actions, and records its Plot telemetry in
RAM scopes.

## Layout

- `src/` is the library, verified with Verus:
  - `bytes`, `wire`, `transport`: byte order, CAN FD frames, the USB
    envelope and its frame scanner, and the frame queue behind a transport.
  - `protocol`: AXDR requests and responses, parameter values, actions, Plot
    configuration and capability pages, telemetry frames and sequence loss.
  - `session`: the request/response engine of one device connection.
  - `schema`, `schema_store`, `cli`: the Host schema, the local schema store
    and how the command line names parameters and actions.
  - `parameter_service`, `config_service`, `motor_actions`, `preflight`,
    `motor_gate`, `motion`: the rules of the parameter cache, configuration
    save, motor workflows, identification preflight, start/stop ordering and
    motion modes.
  - `stream`, `stream_pipeline`, `scope`, `mixed_scope`, `acquisition`,
    `plot_capabilities`: RAM histories, capture, the Plot groups of a scope
    and their generations, and recording budgets.
  - `application`, `automation`, `desktop`: tuning experiments, Repeat
    motion, Action routing, workflow ownership and the script runner's checks.
- `app/` is the `nmixxctl` program: the serial port, the device worker
  thread, files, the terminal, the threads of the scope and the tuning
  experiment, and the floating-point motion preview.
- `tests/` runs the library on concrete values.
