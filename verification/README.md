# OxidPulse diagnostics engine

A system-diagnostics and health-evaluation library whose decision logic is
verified with Verus.

- `src/` — the verified library: health scoring, SMART and drive
  evaluation, crash-stability and integrity verdicts, power-throttling
  diagnosis, sensor and battery interpretation, CPU / disk / RAM / GPU
  benchmark classifiers and projections, network and latency statistics,
  stress and memory-integrity checks, and the report fragments. Quantities
  shown with decimals are held as integers of tenths, hundredths or
  hundred-thousandths so that every rule is stated exactly.
- `tests/` — tests of the library on concrete values.
- `app/` — the unverified shell: gathering readings from the operating
  system, running timed workloads, file export and opening folders. It hands
  plain readings to the library and takes plain results back.
