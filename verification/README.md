# nvoc

GPU overclocking/undervolting for NVIDIA RTX 50-series GPUs on Linux.

- `src/` is the verified library: command-line configuration and the
  `--clocks MIN,MAX` parser, GPU selection (by index, all, or name regex),
  the driver-version check, the reset and overclock runs and the run over
  several GPUs (which step comes next and what a failure means), the info rows and text, and the plain-text
  table renderer.
- `app/` is the program around it: clap argument parsing, the NVML calls,
  and printing.
- `tests/` exercises the library on concrete values.
