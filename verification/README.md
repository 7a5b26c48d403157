# k210_os

Kernel-side logic of a small operating system for the Kendryte K210
(RISC-V), verified with Verus.

- `src/fat_layout.rs`: the FAT boot-sector parameter block, its decoding
  from a sector and the sector counts derived from it.
- `src/lcd/`: the 40x30 character console of the 320x240 LCD. `model.rs`
  states the console as plain values and the effect of every operation;
  `console.rs` implements it (cells, cursor, ANSI escape and SGR colour
  sequences, scrolling, rendering to the RGB565 screen image); `laws.rs`
  proves properties that span operations; `border.rs` draws the start-up
  frame; `palette.rs`, `lcd_colors.rs` and `cp437.rs` hold the xterm
  palette, the RGB565 packing and the code-page-437 glyph table.
- `src/network/util.rs`: the quoted-string and decimal encoders of the
  serial WiFi link.
- `src/boot.rs`: the device-tree header check done at boot.
- `src/process.rs`: the process system calls.
- `app/`: the boot entry, SBI firmware calls and board drivers, which talk to
  hardware and are not verified.
