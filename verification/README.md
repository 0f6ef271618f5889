# quickemu

A library that turns a virtual machine's configuration into the command line
that QEMU is started with, proved correct with Verus, and a small program
around it.

- `src/` is the verified library. Everything that depends on the host (the
  CPU and its CPUID flags, memory, free ports, which files and programs
  exist, what `qemu-img` reports) comes in as plain values, so every rule
  that decides an argument, a default, an index or an error is a verified
  function with a contract.
  - `data/` and `config.rs`: the configuration of a virtual machine, and the
    whole command line it turns into (`Config::to_args`).
  - `args/`: the arguments of each part: machine (CPU model, memory,
    firmware, TPM), input and output, network and consoles, disks and
    installation media.
  - `cli.rs`: how command line options change a configuration.
  - `legacy/`: the first-generation configuration format and its command
    line builder.
  - `text.rs`, `units.rs`, `utils.rs`: text building, sizes (through the
    `size` crate) and description lines.
- `tests/` runs the library on concrete configurations.
- `app/` is the program: it reads the TOML configuration and the command
  line, probes the host, asks the library for the arguments, and starts
  QEMU and its helpers.
