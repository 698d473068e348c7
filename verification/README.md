# pannotia

Bitstream handling for AGM AGRV2K FPGAs (codename "rodinia"), verified with Verus.

The library models a bitstream as its configuration bit arrays and gives typed access
to the fields of every tile: routing muxes, logic cells, block RAM, hard IP, clocking,
IO tiles and the pad ring. Its contracts are stated over `BitstreamView`, the
mathematical content of a bitstream.

Layout of `src/`:

- `container`: the bitstream and its container format (reading, saving, CRC);
  `lemma_save_read_roundtrip` states that reading a saved bitstream gives it back.
- `chips`, `coordinates`, `field`: families, tile and bit coordinates, and reading and
  writing a field of a tile through its bit positions.
- `bitfield`, `bitmux`, `bitenum`, `bittable`: packing bits into integers, two-hot mux
  codes, bit-pattern enums and bit-position tables.
- `tiles` and its submodules: the tile types and their settings.
- `padring`, `routedb`, `defaults`: the pad ring, the routing database, and the
  settings of a new bitstream.
- `textparse`, `textfmt`, `pack`, `dumptext`, `prettyprint`, `rawdump`: the text forms of
  settings, the pack format that bitstreams are built from, and the dumps of a bitstream.

`app/` holds the command-line tool (`pack` and `dump`), and `tests/` the tests.
