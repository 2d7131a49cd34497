pub mod address;
pub mod board;
pub mod bit_ops;
pub mod cartridge;
pub mod cpu;
pub mod debug;
pub mod emulator;
pub mod interrupt_system;
pub mod joypad;
pub mod memory;
pub mod ppu;
pub mod serial_port;
pub mod timer;
