# pieuvre

A Windows 11 tuning tool: it audits the system (hardware, services, AppX
packages, security posture, telemetry endpoints, DPC/ISR latency) and applies
optimizations chosen from a catalogue of options.

- `src/` is the verified library, checked by Verus:
  - `audit/`: classification of packages and services, the security score and
    its recommendations, the hardware inventory built from raw probe values,
    telemetry endpoint reachability, configuration drift, and the latency
    monitor fed by kernel trace events;
  - `interactive/`: the option catalogues, the command registry, the selection
    map, and the state machines of the terminal interface and of the dashboard;
  - `cli/`: log verbosity, the latency ranking of the status view, the
    integrity verification, profile recommendations, the tweak listing and
    the guided wizard's option lists and the step it runs for each option;
  - `text.rs`: the string and number routines the rest relies on.
- `app/` is the program around it: argument parsing, Windows system reads,
  terminal drawing, and the calls into the synchronisation engine that
  carries out the tweaks.
- `tests/` runs the library on concrete values.
