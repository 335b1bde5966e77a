# ros_z_action

The server side of ROS 2 actions, verified with Verus.

- `src/` is the library. It decides what becomes of each request and does no I/O: requests and clock
  readings come in as plain values, and what is to be sent or published goes out as plain values.
  A shutdown goes before any request; which request comes first is up to the caller.
  - `state`: the goals that a server knows, as a `GoalTable` and its transitions.
  - `server`: the server and its goal handles, whose type tells what can be done with a goal.
  - `builder` and `naming`: configuring a server, building it, and the names of its endpoints.
  - `driver`: what the loops that serve requests make of an event.
  - `token`: the part of `tokio_util` by which background tasks are stopped.
  - `action`, `messages` and `time`: the types that the others speak of.
  - `laws`: what holds across operations, such as that a result reads back until it expires.
- `app/` puts the library on zenoh and tokio: channels, tasks, encodings and clocks.
- `tests/` runs the library.
