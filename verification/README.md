# arzmq

Bindings for `libzmq`, the ZeroMQ library, split in two.

* `src/` is the verified core, proved with Verus. For every socket operation it decides
  what is handed to `libzmq` and what is made of the answer: the option number and value
  bytes of each option write (`Sockopt`), the decoding of each option read, the actions that
  socket builders and messages turn into (`SocketAction`), the reading of monitor events,
  the security mechanism of a socket, `errno` mapping, and the Z85 encoding of CURVE keys.
  Its contracts state these exactly, and its proof functions state the laws that hold
  across calls (reading back what was written, decoding what was encoded, and so on).
* `app/` makes the calls into `libzmq` through `arzmq-sys`: contexts, live sockets that
  carry out the core's actions, sending and receiving messages, `zmq_has`, `zmq_version`,
  `zmq_proxy` and CURVE key generation.
* `tests/` runs the core on concrete values.
