# pydmg-neogeo

The core of a Neo Geo (MVS/AES) emulator, with its behaviour stated in contracts
and proved by Verus.

- `src/audio/`: the YM2610 sound chip (FM, SSG, ADPCM-A, ADPCM-B, timers), the
  sound processor's bus and its stepping.
- `src/cpu/z80/`: the Z80 instruction set.
- `src/cpu/m68k/`: the 68000 instruction set.
- `src/graphics/`: the video chip's memory, palette, fix layer, sprites and PNG
  output.
- `src/memory/`: the main bus, the calendar chip, cartridge protection and PCM2
  decryption.
- `src/host/`: the audio ring, the audio stream's life cycle, and what the front
  end computes.
- `app/`: the Android bridge around the library.
- `tests/`: tests of the library.

Each device that holds state has a mathematical view; a method's contract says
which view it leaves. The properties that span several calls are public proof
functions, in files of their own (`laws.rs`, `fm_laws.rs`, `mirror.rs`, `saved.rs`)
or beside the functions they are about.
