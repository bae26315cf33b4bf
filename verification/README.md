# divans_threading

The exchange between a main thread and the worker of a compression codec, verified with
Verus.

- `src/memory.rs`: buffers with the range or the prefix in use.
- `src/interface.rs`: commands, results, and the interface through which a codec reads.
- `src/threading.rs`: the two sides of a worker, each call described by a relation.
- `src/serial_worker.rs`: a worker for two parties that take turns on one thread.
- `src/demuxer.rs`: any worker as the input stream of a codec.
- `src/laws.rs`, `src/stream_laws.rs`: what holds over many calls, such as that bytes are
  read in the order in which they were given and that buffers come back in that order.
