# minirtos

The verified core of a small real-time system for the RP2350 (Raspberry Pi
Pico 2 W): what its drivers write into registers, how the CYW43439 radio's
bus and protocol frames are built and taken apart, and what the shell and the
WLAN task decide. Verus verifies every function in `src/` but the few trusted
wrappers around the `heapless` and `pio` crates, whose contracts are taken
as stated; every public function with a body carries a contract that
states what it returns or changes (the driver traits that `app/`
implements declare their methods without one).

- `src/drivers` — GPIO, UART, SPI, I2C, LCD and input drivers as register
  arithmetic and command lists; the CYW43439 driver's gSPI framing, SDPCM and
  ioctl protocol state, firmware checks, payloads and the PIO bus control.
- `src/apps` — command-line splitting and number and address parsing, the
  shell's application registry and dispatch, the commands' argument checks
  and waits, the WLAN task's results.
- `src/bsp` — the pin plans of the carrier boards and the interrupt table.
- `src/services` — the values exchanged with the network service.
- `app/` — the hardware glue: register access through `rp235x-pac`, the PIO
  state machine through `rp235x-hal`, the NVIC through `cortex-m`, and the
  task and console loops that carry out the library's decisions.
- `tests/` — tests on concrete values.
