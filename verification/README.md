# runkarsk

Launch planning for Cirrus simulation runs, verified with Verus.

- `src/` is the verified library: choosing the queue system and the number
  of tasks of a run (`queue_system`), the run's specification and installed
  version (`run_spec`), the command lines that start it (`launch`), the
  argument vector handed to the command-line parser (`common_args`), the
  console log format (`telemetry`), the kernel module check (`util`), and
  the installation layout (`config`, `paths`).
- `app/` holds the two programs, `runcirrus` and `runner`: argument parsing
  with clap, reading the environment and files, spawning processes, and
  OpenTelemetry setup. It hands the library plain values.
- `tests/` runs the library on concrete values.
