# monoryx

A Minecraft launcher's core, written in Verus: what it decides and computes
is verified against contracts, and the program around it does the I/O.

- `src/` — the verified library: version metadata and its merging, launch
  rules and arguments, Java discovery and selection, mod loaders (Fabric,
  Quilt, Forge, NeoForge), Modrinth search, installs, dependency resolution,
  updates and modpacks, instances and their content records, exports and
  imports, downloads, crash reports, and the launcher's self-update check.
  Laws that span several functions are the `law_*` proof functions.
- `tests/` — tests of the library on concrete values.
- `app/` — the command-line program: reading and writing files, starting
  the game, and everything else that touches the machine.
