# pathtrace

A sky renderer for Vulkan, split in two.

- `src/` is the verified library (Verus): the choice of the GPU and of the queue
  family that draws and presents (`device`), the number of swapchain images
  (`swapchain`), the window event loop's decisions as a state machine with its
  laws (`event_loop`), and the generic `default`.
- `app/` is the program: the Vulkan and window plumbing that performs what the
  library decides (`window.rs`, `context.rs`), and the floating-point
  atmosphere model that renders the sky (`main.rs`).
- `tests/` runs the library on concrete values.
