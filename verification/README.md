# leaf_tunnel

Packet tunnels between a host application and an in-process network stack, verified with Verus.

A tunnel belongs to one runtime and holds two bounded queues of raw IP packets. The host writes
packets into the input queue and reads packets from the output queue; the network stack holds the
transport of the tunnel, which takes input packets and sends output packets.

* `src/packet_io/` holds the tunnels: `handle.rs` is one tunnel, `registry.rs` the tunnels of all
  runtimes, `model.rs` and `registry_model.rs` their mathematical models. `laws.rs` states what
  holds of one tunnel, most of it over any sequence of operations. `registry_laws.rs` states what
  holds of all tunnels together: of single calls, and, over any sequence of calls, of how long a
  runtime has its tunnel and of the order in which its packets arrive.
* `src/ffi/` holds the functions of the host on plain values, `src/errno.rs` their codes.
* `src/text.rs` holds the text that crosses the boundary, `src/inbound.rs` the TUN listener.
* `app/` holds the C interface, the locks, wakers and callbacks.

The library performs no I/O and holds no lock. A transition that asks for something outside (waking
a task, calling the host, waiting for callbacks to return) pushes it onto a list of effects, which
the caller carries out in order and without holding the tunnels.
