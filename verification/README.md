# neworder

A microsimulation framework that runs models written in Python, here with its
core written in Verus and proved.

- `src/` is the verified library:
  - `timeline`: the schedule of timesteps and checkpoints, and stepping through it;
  - `simulation`: the driver that decides, step by step, which model callbacks
    (modifier, transitions, checks, checkpoints) run next, with laws on the
    order of callbacks within a step and on termination;
  - `stream`: the MT19937 generator of `rand_mt`, with the seed and position
    that tie each draw to MT19937's output for that seed;
  - `montecarlo`: the seeding rule for per-process random streams and the
    engine that draws from, rewinds and copies such a stream;
  - `env`, `environment`: the runtime flags and the process's place in its group;
  - `logging`, `paths`: log lines and the module search path;
  - `model`, `command`, `ffs`: the base model's default callbacks and small types.
- `app/` is the runner: it embeds Python (pyo3), exposes the `neworder` module
  to model code, does the floating-point time and probability arithmetic, and
  performs what the driver asks for.
- `tests/` exercises the library.
