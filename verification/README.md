# labtui

A terminal manager for [Lability](https://github.com/VirtualEngine/Lability)
Hyper-V labs, whose core is verified with Verus.

- `src/` is the verified library:
  - `lability/config.rs`: the lab model (nodes, switches, DSC modules,
    media) with abstract views;
  - `lability/generator.rs`: the `.psd1` configuration data and the `.ps1`
    DSC script, each stated character for character by a spec function;
  - `lability/powershell.rs`: the PowerShell command lines;
  - `lability/deployment.rs`, `lability/media.rs`: deployment records and
    the media repository;
  - `ui/`: the node-editor fields and the new nodes and switches;
  - `app.rs`: the application state machine. Every key operation has an
    exact contract over `AppView` and keeps the state invariant
    `AppView::wf`;
  - `app/deploy.rs`: deployment actions as a step machine: the library
    says which effect comes next (write the files, run a command), the host
    performs it and reports the outcome with `App::advance`;
  - `text.rs`: decimals, padding, quoted lists and line splitting.
- `app/` is the terminal program: ratatui/crossterm drawing, the key loop,
  file writing and launching PowerShell.
- `tests/` runs the library on concrete values.
