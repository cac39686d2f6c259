# bevy_burn

A data bridge between [Bevy](https://bevy.org) images and [Burn](https://burn.dev) tensors, verified
with [Verus](https://github.com/verus-lang/verus).

A `BevyBurnHandle` ties an image to a tensor, says which way the contents go (`BindingDirection`) and
whether they are carried over in host or in device memory (`TransferKind`), and asks for a transfer
with `upload`.

## Layout

- `src/` is the library. Every function states what it returns or changes. Verus proves it, except
  for the functions of Bevy, Burn and wgpu that the library calls: what their wrappers and assumed
  specifications say is believed, and each of them names the function that it stands for.
  - `quantize`: channel values to bytes, by integer arithmetic on the bits of single precision
    numbers. That this agrees with the floating point computation is shown by tests, on samples.
  - `tensor`, `images`: Burn's `TensorData`, and Bevy's `Image` and `Assets<Image>`, with the
    contracts of the functions that the bridge calls on them.
  - `handle`, `device`, `plugin`: handles, the shared device, and what an application runs.
  - `cpu`: transfers in host memory.
  - `gpu`: transfers in device memory: staging buffers, and the compute work of a copy.
  - `simulation`: bookkeeping of the fluid that demonstrates the bridge.
- `tests/` runs the library with the real crates.
- `app/` is the Bevy plugin around the library, two demonstrations and the benchmarks. The modules
  `wgpu_backend`, `windows` and `bench` need `burn-wgpu` and `burn-fusion`, Bevy's `bevy_ui`, and
  `criterion` on top of the library's dependencies.
