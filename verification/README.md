# voxel_explore

A small Vulkan voxel renderer whose decisions are proved with Verus.

- `src/` is the verified library:
  - `mesh`: counter-clockwise triangles and quads on the integer lattice, the
    six faces of a voxel, and the index lists of their triangles, with proofs
    that every triangle of a voxel faces outward and that every index names a
    vertex of its own face;
  - `frames`: the pacing of the draw loop over the frames in flight, with its
    retry cap;
  - `controls`: the player's movement keys, the look delta, and the main
    loop's reaction to window events;
  - `device`: the choice of memory type, queue family and swapchain image count;
  - `buffer`: what a device buffer holds and how many bytes its data takes;
  - `shader`: the words of a SPIR-V module decoded from its bytes;
  - `platform`: the windowing platform for each operating system.
- `app/` is the program around it: the GLFW window, the Vulkan calls, the
  floating-point camera and the main loop.
- `tests/` runs the library on concrete values.
