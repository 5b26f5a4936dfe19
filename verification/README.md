# mitos_settings

The settings core of MITOS, verified with Verus: the categories of the
settings navigator and the settings each registers, the plain-text
configuration format (parsing, rendering, migration), the client side of
mitos-service's permission-grant protocol, and the decisions behind the
command-line, interactive and graphical front-ends.

- `src/` is the verified library. Every executable function there carries a
  contract that Verus proves; the one trusted item is the wrapper around
  `str::to_lowercase` used by the settings search.
- `app/` is the `mitos-settings` command-line program around it: argument
  handling, the control socket of mitos-service, file reading and writing.
- `tests/` exercises the library on concrete values.

## What the program does not do

The settings store (loading the user and system files into typed values,
validating and persisting changes, privilege forwarding to the daemon, the
history log and the JSON dumps) is not part of this crate. The library
holds the argument handling and output of the commands that use it, but
the program answers `get`, `set`, `reset`, `schema`, `history`, `import`,
`pick-wallpaper`, `list <category>` and the interactive navigator with
"the settings store is not available in this build". `grants ...`, `list`
without a category and `--help` work in full.

Decimal settings are held exactly as a whole number of thousandths
(`Milli`), so a decimal with more than three places is refused when read.
