# loom

A project-local toolchain manager for Node.js and Python: packages live
under `<root>/<project_dir>`, and their binaries are exposed on `PATH`
through shims, hard links to the `loom` executable itself.

The decisions of the tool are a library verified with Verus (`src/`):

- `config`: `loom.toml`'s settings, their normalisation, root resolution
  (`loom.toml` > `$LOOM_DIR` > the ancestor holding `loom.toml` > the
  executable's directory > `C:\Loom` on Windows, `~/Loom` elsewhere) and
  the directories that follow from the root.
- `runtime`: the Node and Python runtimes; each operation yields a `Plan`
  (program, arguments, working directory, environment, what to prepare and
  what follows), plus the parsing of `pip freeze` output and the listings of
  installed binaries.
- `shim`: shim file names, which binaries get a shim after an install,
  which shims are orphans after an uninstall, and shim dispatch.
- `cmd`: the subcommands, and the `info` report.
- `text`, `order`, `path`, `platform`: strings, code-point order, paths as
  a base with joined components, and the host's path conventions.

`app/` is the command line around it: argument parsing, reading
`loom.toml`, the environment and the filesystem, spawning processes, and
creating and removing the hard links.
