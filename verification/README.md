# ostui

The verified core of a terminal console for OpenStack: screen navigation,
the domain models, the row, detail and form view models, the per-screen
state machines (servers, volumes, networks, security groups, floating IPs,
images, flavors, projects, users, snapshots, usage, host evacuation) and
the module registry.

- `src/` is the library, written in Verus; every function there is
  verified against its `requires`/`ensures`, and the laws of the library
  are public proof functions beside the code they speak of.
- `tests/` runs the library on concrete values.
- `app/` is the thin unverified side: terminal key events, ratatui layout
  values and the floating-point usage figures.
- The calls into chrono (the clock, calendar months, RFC 3339 text) stand
  in `src/` behind small trusted wrappers whose contracts say what chrono's
  source shows; the usage windows are computed from them in verified code.
