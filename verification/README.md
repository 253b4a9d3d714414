# crazyflie_commander

A terminal ground station for flying a Crazyflie nano-drone from the keyboard: it runs
saved missions, flies the drone by hand, records a manual flight as a mission that can be
flown again, and compresses the occupancy map sent down from the vehicle.

The decision logic is a library verified with Verus; the program around it (terminal,
radio link, files, HTTP) is ordinary Rust.

## Layout

- `src/` — the verified library.
  - `keys` — key presses as the pages read them.
  - `datalink` — the vocabulary shared by ground and vehicle, and the occupancy-grid
    compression (keyframes and change lists), with its round-trip law.
  - `drone_control` — mission commands, what each becomes on the drone, how a mission
    ends, manual flight step by step, and the trajectory-memory bookkeeping.
  - `drone_commander` — the commander's model, messages and update (home menu, mission
    library, mission page, manual flight with recording), and recorded flights as
    missions.
  - `gcs` — the ground-control station's pages (menu, mission library, mission monitor
    with trajectory upload) and its page routing.
- `tests/` — tests of the library on concrete values.
- `app/` — the commander program: terminal event loop and drawing, the Crazyflie radio
  link, trajectory building, mission files and the mission server, and the flight
  recorder.

Lengths, speeds and angles are carried in a number type `F` chosen by the caller (the
program uses `f32`); the library only moves such values around, so every computation
with them lives in `app/`.
