# installer_lib

A Windows installer and uninstaller wizard whose decisions are verified with
Verus.

- `src/` is the verified library: command-line arguments, install
  directory and path rules, the registry surface as plans of operations, the
  bundle reader (through the `zip` crate), progress reports, the install and
  uninstall state machines, the wizard's relaunch command lines, and the
  placement of the tray menu. The install machine holds the bundle and
  reads its entries itself, so what it writes is tied to the archive.
  `hive_model` gives registry plans a meaning and proves what installing and
  uninstalling leave in the registry.
- `app/` is the executable around it: it reads the command line and the
  environment, carries out the work the machines ask for (files, processes,
  shortcuts, the registry through `winreg`, elevation through `windows`),
  and writes the JSON documents with `serde_json`.
- `tests/` runs the library on concrete values, the registry plans on an
  in-memory registry and the machines on an in-memory file system.
