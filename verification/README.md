# framed

The context of an actor that talks through a framed transport: it sends and receives
whole messages, buffers what the transport cannot take yet, and closes gracefully.

The library in `src/` decides and never does I/O. Polling a cell is a sequence of steps;
each step says what to do next (`CellAction`), and whoever runs it reports what came of
it. `app/` runs these steps over `tokio_io::codec::Framed`.

- `flags` - the marks a cell keeps about the two halves of its transport
- `signal` - the one-shot signal that ends a drain
- `model` - what a cell asks for and is told, and its transitions as specifications
- `cell` - `ActorFramedCell`, which buffers items and carries out the transitions
- `context` - `FramedContext`, which the actor works with
- `session` - sequences of operations on a cell
- `laws` - what holds over any such sequence
