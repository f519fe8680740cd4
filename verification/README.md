# gpio_host

A host that runs WebAssembly components which drive GPIO pins, either on an
embedded Linux board (`--impl linux`) or in a simulated world (`--impl sim`).

- `src/` is the verified library: reading the command-line options, the run
  plan (engine configuration, instance numbers, threading), what each GPIO
  import does on each world, the guest's own requests, and the measurement
  lines. Each function's contract pins its result; the laws (option names
  read back, instance numbers are distinct, the engine accepts its stack
  sizes) are proof functions beside them.
- `app/` is the program: argument parsing with clap, the wasmtime runtime and
  its WASI context, the GPIO character device, threads and printing. It asks
  the library what to do and does it.
- `tests/` runs the library on concrete values.
