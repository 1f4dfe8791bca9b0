# blaze_rs

A wrapper around OpenCL whose decisions are verified with Verus.

- `src/` is the verified library. It holds everything that can be decided
  from plain values: the bit encodings of memory flags, queue, context and
  partition properties (with proofs that decoding an encoding gives the value
  back), OpenCL versions and their text forms, error codes, the words of
  extension strings, the byte ranges and pitches of buffer and rectangle
  copies, row-major host rectangles, the events a read or a write of a memory
  object must wait for, and the cyclic choice of command queues.
- `app/` holds the calls into the OpenCL runtime, through `opencl-sys`: the
  handles to platforms, devices, contexts, queues, programs, kernels, events
  and buffers. Each of them hands the values it gets from the runtime to the
  library and acts on what the library decides.
- `tests/` runs the library on concrete values.
