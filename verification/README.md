# razer_control

The verified core of a control daemon for Razer Blade laptops, and the programs
around it. Performance profiles, fans, keyboard lighting and the charge limit are
set through the embedded controller (EC) of the laptop, per power domain: barrel
adapter, USB-PD, battery.

## Layout

- `src/` is the library. Every function has a contract that Verus proves.
  - `packet`, `command`, `link`: reports of the EC, the commands they carry, and
    the exchange that has a command confirmed.
  - `profile`, `charger`, `fan`: what each model offers, what should hold in each
    power domain, and the speed that a fan curve asks for.
  - `config`, `device`, `laptop`, `manager`: the stored configuration, the models,
    the attached laptop, and the operations on both. `manager::journal` says what
    the journal is told of them, `manager::laws` what holds across them.
  - `comms`, `daemon`: requests, answers, and the watches of the daemon.
  - `gpu`, `powerkey`, `paths`, `text`: reading what the system tells.
  - `cli`, `tray`: the dialog of the command line client and the tooltip.
- `app/` does the input and output: HID, D-Bus, files, the socket, input devices.
- `tests/` runs the library.

## Rounds

The manager does no input or output. An operation is a chain of rounds: the manager
hands out a list of actions, all of them are performed in order, and their replies
go back to it with the task that the round left open. The exchange with the EC and
the dialog of the command line client work the same way, one step at a time.

## What is trusted

Besides Verus and its library: that `bincode` 1.3 encodes a report as stated in
`packet`.
