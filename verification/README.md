# maboy

A Game Boy (DMG) emulator core whose behaviour is stated in Verus contracts
and proved.

## Layout

- `src/` — the verified library
  - `address.rs` — decoding of CPU addresses into memory areas and I/O registers
  - `memory.rs` — work RAM, high RAM, echo RAM and the boot ROM overlay
  - `cartridge/` — ROM headers, parsing of ROM images, MBC1 and cartridge RAM
  - `ppu/` — the picture processing unit: registers, tile data, OAM, the pixel queue and the frame buffer
  - `timer.rs`, `joypad.rs`, `serial_port.rs`, `interrupt_system.rs` — the other devices
  - `board/` — the bus: one machine cycle of all devices, reads and writes, OAM DMA
  - `cpu/` — registers, the ALU, instruction decoding and the execution of every instruction
  - `emulator.rs` — the CPU and the board together
  - `debug/` — the CPU event log (filled by the CPU through the board) and the break conditions of the CPU debugger
- `app/` — frontend glue: loading ROM files, printing serial output, the console debugger
- `tests/` — tests of the library on concrete programs and values

The bus is specified relationally: `Board::ticked` says what one machine
cycle does to every device, and `Board::read8_post` / `Board::write8_post`
what a CPU access does. Every instruction's effect on the CPU and the board
is stated by `cpu::execute::op_post`, and `CPU::step_post` states a whole
step (interrupt dispatch, halting, or fetch and execute), including the
events it hands to the board's log.
