# monoxide_ttf

Writing TrueType font files, with the encoders proved correct by Verus.

- `src/model` holds the tables close to their binary form. Each table
  states, as a specification, the bytes it writes (`ITable::encoding`), and
  its `write` is proved to append exactly those bytes. `model::font`
  assembles the tables into a file: the table directory locates every
  table, and the checksum of the whole file written, the marks before its
  tables included, is `0xB1B0AFBA`.
- `src/hl` holds higher-level descriptions and their conversions: outlines
  to simple glyphs and back (a proved round trip), character mappings to
  `cmap` subtables, and the `loca` and `maxp` tables computed from `glyf`.
- `src/curve` holds quadratic and cubic bezier curves and their builders.
- `src/spiro` holds the control point types of spiro curves and the integer
  side of the spiro solver: how many constraints a path has, and which rows
  and band columns of the solver's matrix each constraint takes.
- `src/dev` holds the decisions of the development servers' start-up: when
  to keep polling the web UI dev server, retry it on the next port, or give
  up, and when the wait for the servers ends. `app/dev.rs` spawns, sleeps
  and probes ports, and follows them.
- `src/buf` is the byte sink the encoders write to: a `bytes::BytesMut`
  buffer, or a writer that only counts bytes.
- `app/main.rs` generates a small test font and writes it to a file.
- `app/spiro.rs` and `app/bez.rs` hold the floating-point part of the spiro
  solver (integrating the spiral, the band solver, rendering to bezier
  curves), which calls the verified row bookkeeping of `src/spiro`.
