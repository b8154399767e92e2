# rocm_rs

Rust bindings for AMD ROCm, split into a verified core and a thin runtime layer.

- `src/` is the verified library (Verus). It holds everything that is decided
  on the host: the status codes of HIP, MIOpen and rocBLAS and their mapping to
  `Result`s and messages; the unified error type; the raw values of the library
  selectors and modes with their round trips; launch geometry (grid sizes,
  rounding to multiples); version decoding; device reports; the shape algebra of
  device arrays (row-major strides, flat and multidimensional indices,
  broadcasting, reshape/squeeze/slice/reduce planning); transfer sizes of device
  copies; the launch plans of the device sort (with a model of its kernels and
  a proof that the planned rounds sort) and of the sortedness check; error
  context messages; and seeded permutations and sampling of indices.
- `app/` calls the ROCm runtime libraries (devices, streams, events, device
  memory, modules and kernels, rocBLAS and MIOpen handles, device arrays) and
  hands every check and computation to `src/`.
- `tests/` exercises the library on concrete values.
