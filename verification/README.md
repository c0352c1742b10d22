# pcf8563

Register-level logic of the NXP PCF8563 real-time clock, verified with Verus, and an
asynchronous I2C driver around it.

- `src/` is the verified library. Every operation that changes the clock returns the
  list of register accesses (`access::Step`) a bus driver performs in order; every
  operation that inspects the clock returns a query on one register (`FlagQuery`,
  `ValueQuery`), and reading the alarm settings is driven by `AlarmSettingsReader`.
  The effect of the accesses on the register file is specified in `access`, and the
  modules `alarm`, `control` and `timer` prove what reading back after each operation
  gives, e.g. that the alarm settings read after `set_alarm` are the settings set.
- `app/` is the `embedded-hal-async` driver `PCF8563<I2C>`: it performs the accesses
  over the bus and stops at the first bus error.
- `tests/` run the operations against a register file in memory.
