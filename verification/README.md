# overclock

The logic of a one-click Windows performance optimizer for gaming, verified
with Verus, and the desktop application around it.

The optimizer detects the hardware, offers five optimization profiles, applies
registry, power, network and service tweaks through PowerShell, and records the
values it overwrites in a snapshot, from which a revert puts them back.

## Layout

- `src/` — the verified library.
  - `profiles.rs`: the five profiles.
  - `optimizer.rs`: which changes a profile makes (`apply_profile`), and how
    each change is carried out (`apply_step`): a step function from the
    outcomes of the PowerShell commands run so far to the next command or the
    change's result, with the snapshot entry that records the original value.
  - `revert.rs`: which snapshot entries a revert undoes (`revert_snapshot`) and
    how each is undone (`revert_step`), in the same step form.
  - `laws.rs`: what holds across functions — for each kind of change, what the
    change reads before writing and what reverting its entry runs (the recorded
    values put back, or a created key removed), exclusions only remove changes,
    a registry read gives back what a write put down.
  - `detector.rs`: reading WMI rows, PowerShell listings and Steam manifests
    into a hardware profile.
  - `commands.rs`, `snapshot.rs`: what the application's commands compute,
    including the snapshot's hardware fingerprint and whether a revert may
    delete the snapshot.
  - `registry.rs`, `scripts.rs`: the PowerShell commands, as text.
  - `text.rs`, `json.rs`, `types.rs`: text operations, JSON values, data types.
- `app/` — the Tauri application: the commands the interface invokes, the
  PowerShell runner that drives the step functions, WMI queries, registry and
  file access, and serializable copies of the library's types.
- `tests/` — tests of the library on concrete values.
