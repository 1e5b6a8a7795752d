# caravel_hal

Verified logic of a hardware abstraction layer for the Caravel and Caravan
ChipIgnite management SoCs.

`src/` is the library, checked by Verus. It never touches the hardware: each
driver says which values go to which memory-mapped registers (`regs::RegWrite`)
and takes the register values it reads as arguments. The housekeeping SPI
driver (`housekeeping_spi`) is a state machine: each operation is a fixed plan
of SPI transfers, walked one transfer at a time, with every reply checked. The
blocking UART read and write are state machines of the same kind (`uart`).

`app/` holds the drivers that own the registers (through `caravel-pac`) and
the SPI link, implement the `embedded-hal` and `embedded-io` traits, and
register the interrupt dispatcher; they perform what the library decides.

`tests/` runs the library on concrete values.
