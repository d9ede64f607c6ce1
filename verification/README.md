# autoclockspeed

An automatic CPU frequency scaler and power saver for Linux laptops: a
daemon that picks a governor for the cores from a set of rules (low
battery, charger, closed lid, sustained high CPU usage), a monitor that
shows the cores, and commands to read values of the machine, set the
governor and pause or resume a running daemon.

- `src/` is the library, verified with Verus: the rules and the daemon's
  decisions, the line protocol between the daemon and its clients, the
  parsers of the sysfs and procfs texts, the configuration, the command-line
  settings, the interactive commands and everything the program prints. Its
  contracts and its laws (`law_*` proof functions) state what it does.
- `app/` is the `acs` program around it: the command line, the files of the
  machine, the socket and its threads, the terminal, and the floating-point
  measurements (CPU usage, battery condition, graphs).
- `tests/` runs the library on concrete values.
