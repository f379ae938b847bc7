# nbody

An N-body particle viewer (winit + wgpu + egui) whose bookkeeping is a
verified Verus library.

- `src/buffer_tools.rs`: `TripleBuffer`, three slots shared by a producer and a
  consumer, with the publication laws (a commit followed by `swap_read` shows
  the reader a clone of what was written; writes stay hidden from the reader).
- `src/diagnostic.rs`: `FrameQueue`, a bounded queue of frame timestamps that
  keeps the most recent `max_frames`, with the sliding-window laws.
- `app/`: the window, the GPU renderer, the egui overlay, the floating-point
  simulation and the frame-rate arithmetic.
