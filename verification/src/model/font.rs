//! Assembling the tables into a font file.
//!
//! The file starts with a header and the table directory: one record per
//! table with its tag, checksum, offset and length. The tables follow in
//! the order of the directory, each after an eight-byte mark `__tag__` that
//! eases debugging and each padded with zeros to a multiple of four bytes.
//! The `head` table is written last in the sense that its
//! `checksum_adjustment` is computed from everything else: the checksums of
//! the header, of the directory and of every table add up, with it, to
//! 0xB1B0AFBA.
use crate::buf::{bytes_mut_contents, bytes_mut_new, bytes_mut_to_vec, BufSink};
use crate::bytes_spec::{u16_bytes, u32_bytes};
use crate::model::checksum::{
    checksum, lemma_word_sum_append, lemma_word_sum_zeros, ttf_checksum, word_sum,
};
use crate::model::{cff2, cmap, glyf, head, hhea, hmtx, loca, maxp, name, os2, ITable};
use vstd::prelude::*;

verus! {

/// Tables for TrueType outlines.
pub struct TrueTypeTables {
    pub glyf: glyf::Table,
    pub loca: loca::Table,
    pub maxp: maxp::TableV1,
}

/// Tables for CFF2 outlines.
pub struct CFF2Tables {
    pub cff2: cff2::Table,
    pub maxp: maxp::TableV0_5,
}

/// The outlines of the glyphs and the tables that go with them.
pub enum Outline {
    TrueType(TrueTypeTables),
    CFF2(CFF2Tables),
}

/// All the tables of a font.
pub struct FontFile {
    pub head: head::Table,
    pub hhea: hhea::Table,
    pub hmtx: hmtx::Table,
    pub cmap: cmap::Table,
    pub name: name::Table,
    pub os2: os2::Table,
    pub outline: Outline,
}

/// A table as the file holds it: its tag and its bytes.
pub type TablePiece = (Seq<u8>, Seq<u8>);

#[verifier::opaque]
pub open spec fn table_piece<T: ITable>(t: &T) -> TablePiece {
    (t.tag(), t.encoding())
}

pub proof fn lemma_piece_tag<T: ITable>(t: &T)
    ensures
        table_piece(t).0 == t.tag(),
{
    reveal(table_piece);
}

/// `n` zero bytes.
pub open spec fn zeros(n: nat) -> Seq<u8> {
    Seq::new(n, |i: int| 0u8)
}

/// The zero bytes that pad data of length `n` to a multiple of four.
pub open spec fn pad_for(n: int) -> Seq<u8> {
    zeros(((4 - n % 4) % 4) as nat)
}

/// `n` rounded up to a multiple of four.
pub open spec fn round4(n: int) -> int {
    n + (4 - n % 4) % 4
}

/// The mark written before a table: two underscores, the tag, two
/// underscores.
pub open spec fn debug_mark(tag: Seq<u8>) -> Seq<u8> {
    seq![0x5fu8, 0x5fu8] + tag + seq![0x5fu8, 0x5fu8]
}

/// The size of the header and the table directory.
pub open spec fn header_size(n: nat) -> int {
    12 + 16 * n as int
}

/// Where the bytes of table `k` start: after the header, the directory and
/// the tables before it with their marks and padding, and after its own
/// mark.
pub open spec fn data_offset(pieces: Seq<TablePiece>, k: nat) -> int
    decreases k,
{
    if k == 0 {
        header_size(pieces.len()) + 8
    } else {
        round4(data_offset(pieces, (k - 1) as nat) + pieces[k - 1].1.len()) + 8
    }
}

/// The directory record of table `k`: tag, checksum, offset and length, the
/// last two kept in 32 bits.
pub open spec fn record_bytes(pieces: Seq<TablePiece>, k: int) -> Seq<u8> {
    pieces[k].0 + u32_bytes(checksum(pieces[k].1)) + u32_bytes(
        (data_offset(pieces, k as nat) % 0x1_0000_0000) as u32,
    ) + u32_bytes((pieces[k].1.len() % 0x1_0000_0000) as u32)
}

/// The directory records of the first `k` tables.
pub open spec fn directory_bytes(pieces: Seq<TablePiece>, k: nat) -> Seq<u8>
    decreases k,
{
    if k == 0 {
        seq![]
    } else {
        directory_bytes(pieces, (k - 1) as nat) + record_bytes(pieces, k - 1)
    }
}

/// `floor(log2(n))`, 0 for `n` below 2.
pub open spec fn log2_floor(n: nat) -> nat
    decreases n,
{
    if n < 2 {
        0
    } else {
        1 + log2_floor(n / 2)
    }
}

/// `2^e`.
pub open spec fn pow2(e: nat) -> nat
    decreases e,
{
    if e == 0 {
        1
    } else {
        2 * pow2((e - 1) as nat)
    }
}

/// The number of tables and the search parameters for a binary search of
/// the directory: the largest power of two not above the number of tables,
/// times 16; its base-2 logarithm; and the rest of 16 times the number of
/// tables. All are kept in 16 bits.
pub open spec fn header_fields(n: nat) -> (u16, u16, u16, u16) {
    let e = log2_floor(n);
    let search_range = 16 * pow2(e);
    (
        (n % 0x1_0000) as u16,
        (search_range % 0x1_0000) as u16,
        e as u16,
        ((16 * n - search_range) % 0x1_0000) as u16,
    )
}

/// The file header for `n` tables: the TrueType version 1.0, then the
/// header fields.
pub open spec fn file_header(n: nat) -> Seq<u8> {
    let f = header_fields(n);
    seq![0x00u8, 0x01u8, 0x00u8, 0x00u8] + u16_bytes(f.0) + u16_bytes(f.1) + u16_bytes(f.2)
        + u16_bytes(f.3)
}

/// The first `k` tables, each after its mark and padded to a multiple of
/// four bytes.
pub open spec fn tables_bytes(written: Seq<TablePiece>, k: nat) -> Seq<u8>
    decreases k,
{
    if k == 0 {
        seq![]
    } else {
        let p = written[k - 1];
        tables_bytes(written, (k - 1) as nat) + debug_mark(p.0) + p.1 + pad_for(p.1.len() as int)
    }
}

/// The sum of the checksums of the first `k` tables.
pub open spec fn checksum_total(pieces: Seq<TablePiece>, k: nat) -> int
    decreases k,
{
    if k == 0 {
        0
    } else {
        checksum_total(pieces, (k - 1) as nat) + checksum(pieces[k - 1].1)
    }
}

/// The sum of the checksums of the marks of the first `k` tables.
pub open spec fn mark_total(pieces: Seq<TablePiece>, k: nat) -> int
    decreases k,
{
    if k == 0 {
        0
    } else {
        mark_total(pieces, (k - 1) as nat) + checksum(debug_mark(pieces[k - 1].0))
    }
}

/// The header, the directory describing `pieces`, and the tables
/// `written`.
pub open spec fn layout(pieces: Seq<TablePiece>, written: Seq<TablePiece>) -> Seq<u8> {
    file_header(pieces.len()) + directory_bytes(pieces, pieces.len()) + tables_bytes(
        written,
        written.len(),
    )
}

impl FontFile {
    /// The tables after `head`, in the order they are written.
    pub open spec fn other_pieces(&self) -> Seq<TablePiece> {
        match self.outline {
            Outline::TrueType(t) => seq![
                table_piece(&self.hhea),
                table_piece(&self.hmtx),
                table_piece(&self.cmap),
                table_piece(&self.name),
                table_piece(&self.os2),
                table_piece(&t.glyf),
                table_piece(&t.loca),
                table_piece(&t.maxp),
            ],
            Outline::CFF2(_) => seq![],
        }
    }

    /// All tables, with the given `head` first.
    pub open spec fn pieces_with_head(&self, head: head::Table) -> Seq<TablePiece> {
        seq![table_piece(&head)] + self.other_pieces()
    }

    /// All tables as given.
    pub open spec fn pieces(&self) -> Seq<TablePiece> {
        self.pieces_with_head(self.head)
    }

    /// The checksum of the font with the `head` table as given: header,
    /// tables, the marks before them and directory.
    pub open spec fn font_checksum(&self) -> int {
        let p = self.pieces();
        (checksum(file_header(p.len())) + checksum_total(p, p.len()) + mark_total(p, p.len())
            + checksum(directory_bytes(p, p.len()))) % 0x1_0000_0000
    }

    /// The `head` table as written: its `checksum_adjustment` makes the
    /// checksums add up to 0xB1B0AFBA.
    pub open spec fn adjusted_head(&self) -> head::Table {
        head::Table {
            checksum_adjustment: ((0xB1B0AFBA - self.font_checksum()) % 0x1_0000_0000) as u32,
            ..self.head
        }
    }

    /// The bytes of the font file.
    pub open spec fn file_bytes(&self) -> Seq<u8> {
        layout(self.pieces(), self.pieces_with_head(self.adjusted_head()))
    }

    /// The tables can be written.
    pub open spec fn writable(&self) -> bool {
        &&& self.outline is TrueType
        &&& self.cmap.writable()
        &&& self.name.writable()
    }
}

/// A `head` table is as long whatever its checksum adjustment.
proof fn lemma_head_piece_len(a: head::Table, b: head::Table)
    ensures
        table_piece(&a).1.len() == table_piece(&b).1.len(),
{
    reveal(table_piece);
}

/// Writes one table into a vector of its own.
fn serialize<T: ITable>(t: &T) -> (v: Vec<u8>)
    requires
        t.writable(),
        table_piece(t).1.len() <= isize::MAX,
    ensures
        v@ == table_piece(t).1,
{
    proof {
        reveal(table_piece);
    }
    let mut buf = bytes_mut_new();
    t.write(&mut buf);
    bytes_mut_to_vec(&buf)
}

/// Writes the zero bytes that pad data of length `curr_len` to a multiple
/// of four.
pub fn pad_to_4_bytes<W: BufSink>(curr_len: usize, w: &mut W)
    requires
        old(w).written().len() + pad_for(curr_len as int).len() <= isize::MAX,
    ensures
        final(w).written() == old(w).written() + pad_for(curr_len as int),
{
    let need_to_pad = (4 - curr_len % 4) % 4;
    let mut k: usize = 0;
    while k < need_to_pad
        invariant
            k <= need_to_pad <= 3,
            need_to_pad == (4 - curr_len % 4) % 4,
            old(w).written().len() + need_to_pad <= isize::MAX,
            w.written() == old(w).written() + zeros(k as nat),
        decreases need_to_pad - k,
    {
        w.put_u8(0);
        assert(w.written() =~= old(w).written() + zeros((k + 1) as nat));
        k = k + 1;
    }
}

proof fn lemma_pow2_log2(n: nat)
    ensures
        pow2(log2_floor(n)) <= if n == 0 {
            1
        } else {
            n
        },
    decreases n,
{
    if n >= 2 {
        lemma_pow2_log2(n / 2);
    }
}

fn log2_floor_exec(n: usize) -> (e: u16)
    requires
        n < 0x1_0000,
    ensures
        e == log2_floor(n as nat),
        pow2(e as nat) <= 0x1_0000,
{
    proof {
        lemma_pow2_log2(n as nat);
        if log2_floor(n as nat) >= 16 {
            lemma_pow2_ge(log2_floor(n as nat));
        }
    }
    let mut m: usize = n;
    let mut e: u16 = 0;
    while m >= 2
        invariant
            m <= n < 0x1_0000,
            e + log2_floor(m as nat) == log2_floor(n as nat),
            log2_floor(n as nat) < 16,
        decreases m,
    {
        m = m / 2;
        e = e + 1;
    }
    e
}

proof fn lemma_pow2_ge(e: nat)
    requires
        e >= 16,
    ensures
        pow2(e) >= 0x1_0000,
    decreases e,
{
    if e == 16 {
        assert(pow2(16) == 0x1_0000) by {
            reveal_with_fuel(pow2, 17);
        }
    } else {
        lemma_pow2_ge((e - 1) as nat);
    }
}

fn pow2_exec(e: u16) -> (r: usize)
    requires
        pow2(e as nat) <= 0x1_0000,
    ensures
        r == pow2(e as nat),
{
    let mut r: usize = 1;
    let mut k: u16 = 0;
    while k < e
        invariant
            k <= e,
            r == pow2(k as nat),
            pow2(e as nat) <= 0x1_0000,
        decreases e - k,
    {
        proof {
            lemma_pow2_mono((k + 1) as nat, e as nat);
        }
        r = r * 2;
        k = k + 1;
    }
    r
}

proof fn lemma_pow2_mono(a: nat, b: nat)
    requires
        a <= b,
    ensures
        pow2(a) <= pow2(b),
    decreases b,
{
    if a < b {
        lemma_pow2_mono(a, (b - 1) as nat);
    }
}

fn header_fields_exec(n: usize) -> (r: (u16, u16, u16, u16))
    requires
        n < 0x1_0000,
    ensures
        r == header_fields(n as nat),
{
    let e = log2_floor_exec(n);
    let search_range: usize = 16 * pow2_exec(e);
    proof {
        lemma_pow2_log2(n as nat);
    }
    let range_shift: usize = (16 * n + 0x10_0000 - search_range) % 0x1_0000;
    proof {
        vstd::arithmetic::div_mod::lemma_mod_multiples_vanish(
            16,
            16 * n - search_range,
            0x1_0000,
        );
    }
    ((n % 0x1_0000) as u16, (search_range % 0x1_0000) as u16, e, range_shift as u16)
}

/// The file header for `n` tables.
fn file_header_bytes(n: usize) -> (v: Vec<u8>)
    requires
        n < 0x1_0000,
    ensures
        v@ == file_header(n as nat),
{
    let f = header_fields_exec(n);
    let mut buf = bytes_mut_new();
    buf.put_u8(0x00);
    buf.put_u8(0x01);
    buf.put_u8(0x00);
    buf.put_u8(0x00);
    buf.put_u16(f.0);
    buf.put_u16(f.1);
    buf.put_u16(f.2);
    buf.put_u16(f.3);
    assert(bytes_mut_contents(buf) =~= file_header(n as nat));
    bytes_mut_to_vec(&buf)
}

proof fn lemma_data_offset_aligned(pieces: Seq<TablePiece>, k: nat)
    ensures
        data_offset(pieces, k) % 4 == 0,
        data_offset(pieces, k) >= header_size(pieces.len()) + 8,
    decreases k,
{
    if k > 0 {
        lemma_data_offset_aligned(pieces, (k - 1) as nat);
    }
}

/// The tables as written take, with their marks and padding, the room the
/// directory's offsets leave for them.
proof fn lemma_tables_len(pieces: Seq<TablePiece>, written: Seq<TablePiece>, k: nat)
    requires
        written.len() == pieces.len(),
        k <= pieces.len(),
        forall|j: int| 0 <= j < pieces.len() ==> (#[trigger] written[j]).1.len() == pieces[j].1.len(),
        forall|j: int| 0 <= j < pieces.len() ==> (#[trigger] written[j]).0.len() == 4,
    ensures
        header_size(pieces.len()) + tables_bytes(written, k).len() + 8 == data_offset(
            pieces,
            k,
        ),
    decreases k,
{
    if k > 0 {
        lemma_tables_len(pieces, written, (k - 1) as nat);
        lemma_data_offset_aligned(pieces, (k - 1) as nat);
        let d = data_offset(pieces, (k - 1) as nat);
        let l = pieces[k - 1].1.len() as int;
        assert((d + l) % 4 == l % 4);
    }
}

proof fn lemma_tables_mono(written: Seq<TablePiece>, k: nat, m: nat)
    requires
        k <= m <= written.len(),
    ensures
        tables_bytes(written, k).len() <= tables_bytes(written, m).len(),
    decreases m,
{
    if k < m {
        lemma_tables_mono(written, k, (m - 1) as nat);
    }
}

proof fn lemma_directory_len(pieces: Seq<TablePiece>, k: nat)
    requires
        k <= pieces.len(),
        forall|j: int| 0 <= j < pieces.len() ==> (#[trigger] pieces[j]).0.len() == 4,
    ensures
        directory_bytes(pieces, k).len() == 16 * k,
    decreases k,
{
    if k > 0 {
        lemma_directory_len(pieces, (k - 1) as nat);
        assert(pieces[k - 1].0.len() == 4);
    }
}

/// A table directory record.
struct TableRecord {
    tag: [u8; 4],
    checksum: u32,
    offset: u32,
    length: u32,
}

impl FontFile {
    /// Every tag is four bytes long, and the adjusted `head` has the tag of
    /// `head`.
    proof fn lemma_tags(&self)
        requires
            self.outline is TrueType,
        ensures
            forall|j: int| 0 <= j < 9 ==> (#[trigger] self.pieces()[j]).0.len() == 4,
            table_piece(&self.adjusted_head()).0 == table_piece(&self.head).0,
    {
        let t = self.outline->TrueType_0;
        lemma_piece_tag(&self.head);
        lemma_piece_tag(&self.adjusted_head());
        lemma_piece_tag(&self.hhea);
        lemma_piece_tag(&self.hmtx);
        lemma_piece_tag(&self.cmap);
        lemma_piece_tag(&self.name);
        lemma_piece_tag(&self.os2);
        lemma_piece_tag(&t.glyf);
        lemma_piece_tag(&t.loca);
        lemma_piece_tag(&t.maxp);
    }

    /// The facts about sizes that writing the file relies on.
    proof fn lemma_layout(&self)
        requires
            self.writable(),
        ensures
            self.pieces().len() == 9,
            self.pieces_with_head(self.adjusted_head()).len() == 9,
            forall|j: int|
                0 <= j < 9 ==> (#[trigger] self.pieces_with_head(self.adjusted_head())[j]).1.len()
                    == self.pieces()[j].1.len(),
            forall|j: int|
                0 <= j < 9 ==> (#[trigger] self.pieces_with_head(self.adjusted_head())[j]).0.len()
                    == 4,
            forall|j: int| 0 <= j < 9 ==> (#[trigger] self.pieces()[j]).0.len() == 4,
            forall|j: int|
                0 <= j < 9 ==> #[trigger] data_offset(self.pieces(), j as nat) + self.pieces()[j].1.len()
                    <= self.file_bytes().len(),
            directory_bytes(self.pieces(), 9).len() == 144,
            file_header(9).len() == 12,
            self.file_bytes().len() == 156 + tables_bytes(
                self.pieces_with_head(self.adjusted_head()),
                9,
            ).len(),
    {
        let pieces = self.pieces();
        let written = self.pieces_with_head(self.adjusted_head());
        self.lemma_tags();
        lemma_head_piece_len(self.head, self.adjusted_head());
        assert forall|j: int| 0 <= j < 9 implies (#[trigger] written[j]).1.len() == pieces[j].1.len() by {
            if j > 0 {
                assert(written[j] == pieces[j]);
            }
        }
        lemma_directory_len(pieces, 9);
        assert forall|j: int| 0 <= j < 9 implies #[trigger] data_offset(pieces, j as nat)
            + pieces[j].1.len() <= self.file_bytes().len() by {
            lemma_tables_len(pieces, written, (j + 1) as nat);
            lemma_tables_mono(written, (j + 1) as nat, 9);
            lemma_data_offset_aligned(pieces, j as nat);
        }
    }

    /// Writes every table into a vector of its own, in the order of the
    /// directory, `head` first.
    fn serialize_all(&self) -> (r: (Vec<Vec<u8>>, Vec<[u8; 4]>))
        requires
            self.writable(),
            forall|j: int| 0 <= j < 9 ==> (#[trigger] self.pieces()[j]).1.len() <= isize::MAX,
        ensures
            r.0@.len() == 9,
            r.1@.len() == 9,
            forall|k: int| 0 <= k < 9 ==> (#[trigger] r.0@[k])@ == self.pieces()[k].1,
            forall|k: int| 0 <= k < 9 ==> (#[trigger] r.1@[k])@ == self.pieces()[k].0,
    {
        let ghost p = self.pieces();
        let tables = match &self.outline {
            Outline::TrueType(t) => t,
            Outline::CFF2(_) => {
                return (Vec::new(), Vec::new());
            },
        };
        proof {
            lemma_piece_tag(&self.head);
            lemma_piece_tag(&self.hhea);
            lemma_piece_tag(&self.hmtx);
            lemma_piece_tag(&self.cmap);
            lemma_piece_tag(&self.name);
            lemma_piece_tag(&self.os2);
            lemma_piece_tag(&tables.glyf);
            lemma_piece_tag(&tables.loca);
            lemma_piece_tag(&tables.maxp);
        }
        let mut sers: Vec<Vec<u8>> = Vec::new();
        let mut tags: Vec<[u8; 4]> = Vec::new();
        assert(self.pieces()[0].1.len() <= isize::MAX);
        assert(self.pieces()[0] == table_piece(&self.head));
        sers.push(serialize(&self.head));
        tags.push(self.head.name());
        assert(self.pieces()[1].1.len() <= isize::MAX);
        assert(self.pieces()[1] == table_piece(&self.hhea));
        sers.push(serialize(&self.hhea));
        tags.push(self.hhea.name());
        assert(self.pieces()[2].1.len() <= isize::MAX);
        assert(self.pieces()[2] == table_piece(&self.hmtx));
        sers.push(serialize(&self.hmtx));
        tags.push(self.hmtx.name());
        assert(self.pieces()[3].1.len() <= isize::MAX);
        assert(self.pieces()[3] == table_piece(&self.cmap));
        sers.push(serialize(&self.cmap));
        tags.push(self.cmap.name());
        assert(self.pieces()[4].1.len() <= isize::MAX);
        assert(self.pieces()[4] == table_piece(&self.name));
        sers.push(serialize(&self.name));
        tags.push(self.name.name());
        assert(self.pieces()[5].1.len() <= isize::MAX);
        assert(self.pieces()[5] == table_piece(&self.os2));
        sers.push(serialize(&self.os2));
        tags.push(self.os2.name());
        assert(self.pieces()[6].1.len() <= isize::MAX);
        assert(self.pieces()[6] == table_piece(&tables.glyf));
        sers.push(serialize(&tables.glyf));
        tags.push(tables.glyf.name());
        assert(self.pieces()[7].1.len() <= isize::MAX);
        assert(self.pieces()[7] == table_piece(&tables.loca));
        sers.push(serialize(&tables.loca));
        tags.push(tables.loca.name());
        assert(self.pieces()[8].1.len() <= isize::MAX);
        assert(self.pieces()[8] == table_piece(&tables.maxp));
        sers.push(serialize(&tables.maxp));
        tags.push(tables.maxp.name());
        (sers, tags)
    }
}

proof fn lemma_add_mod(a: int, c: u32)
    ensures
        ((a % 0x1_0000_0000) + c) % 0x1_0000_0000 == (a + c) % 0x1_0000_0000,
{
    vstd::arithmetic::div_mod::lemma_add_mod_noop(a, c as int, 0x1_0000_0000);
    vstd::arithmetic::div_mod::lemma_mod_twice(c as int, 0x1_0000_0000);
    vstd::arithmetic::div_mod::lemma_small_mod(c as nat, 0x1_0000_0000);
}

/// Appends one directory record.
fn put_record<W: BufSink>(directory: &mut W, tag: [u8; 4], cks: u32, offset: u32, length: u32)
    requires
        old(directory).written().len() + 16 <= isize::MAX,
    ensures
        final(directory).written() == old(directory).written() + tag@ + u32_bytes(cks) + u32_bytes(
            offset,
        ) + u32_bytes(length),
{
    directory.put_u8(tag[0]);
    directory.put_u8(tag[1]);
    directory.put_u8(tag[2]);
    directory.put_u8(tag[3]);
    directory.put_u32(cks);
    directory.put_u32(offset);
    directory.put_u32(length);
    assert(tag@ =~= seq![tag[0], tag[1], tag[2], tag[3]]);
    assert(directory.written() =~= old(directory).written() + tag@ + u32_bytes(cks) + u32_bytes(
        offset,
    ) + u32_bytes(length));
}

/// Builds the table directory, and sums the checksums of the header, of the
/// tables and of the directory modulo 2^32.
fn directory_and_checksum(
    Ghost(pieces): Ghost<Seq<TablePiece>>,
    sers: &Vec<Vec<u8>>,
    tags: &Vec<[u8; 4]>,
    header: &Vec<u8>,
) -> (r: (Vec<u8>, u32))
    requires
        pieces.len() == 9,
        sers@.len() == 9,
        tags@.len() == 9,
        forall|k: int| 0 <= k < 9 ==> (#[trigger] sers@[k])@ == pieces[k].1,
        forall|k: int| 0 <= k < 9 ==> (#[trigger] tags@[k])@ == pieces[k].0,
        forall|k: int|
            0 <= k < 9 ==> data_offset(pieces, k as nat) + (#[trigger] pieces[k]).1.len() <= isize::MAX,
    ensures
        r.0@ == directory_bytes(pieces, 9),
        r.1 == (checksum(header@) + checksum_total(pieces, 9) + mark_total(pieces, 9) + checksum(
            directory_bytes(pieces, 9),
        )) % 0x1_0000_0000,
{
    let mut directory = bytes_mut_new();
    let mut font_cksum: u32 = ttf_checksum(header.as_slice());
    let mut offset: usize = 12 + 16 * 9;
    let mut k: usize = 0;
    assert(checksum(header@) as int == (checksum(header@) as int) % 0x1_0000_0000);
    while k < 9
        invariant
            pieces.len() == 9,
            sers@.len() == 9,
            tags@.len() == 9,
            forall|j: int| 0 <= j < 9 ==> (#[trigger] sers@[j])@ == pieces[j].1,
            forall|j: int| 0 <= j < 9 ==> (#[trigger] tags@[j])@ == pieces[j].0,
            forall|j: int|
                0 <= j < 9 ==> data_offset(pieces, j as nat) + (#[trigger] pieces[j]).1.len()
                    <= isize::MAX,
            k <= 9,
            offset + 8 == data_offset(pieces, k as nat),
            bytes_mut_contents(directory) == directory_bytes(pieces, k as nat),
            bytes_mut_contents(directory).len() == 16 * k,
            font_cksum == (checksum(header@) + checksum_total(pieces, k as nat) + mark_total(
                pieces,
                k as nat,
            )) % 0x1_0000_0000,
        decreases 9 - k,
    {
        assert(data_offset(pieces, (k as int) as nat) + pieces[k as int].1.len() <= isize::MAX);
        offset = offset + 8;
        let ser = &sers[k];
        let tag = tags[k];
        let cks = ttf_checksum(ser.as_slice());
        let mark = mark_bytes(tag);
        let mark_cks = ttf_checksum(mark.as_slice());
        put_record(
            &mut directory,
            tag,
            cks,
            (offset as u64 % 0x1_0000_0000) as u32,
            (ser.len() as u64 % 0x1_0000_0000) as u32,
        );
        proof {
            assert(bytes_mut_contents(directory) == directory_bytes(pieces, (k + 1) as nat));
            lemma_add_mod(
                checksum(header@) + checksum_total(pieces, k as nat) + mark_total(pieces, k as nat),
                cks,
            );
            lemma_add_mod(
                checksum(header@) + checksum_total(pieces, (k + 1) as nat) + mark_total(
                    pieces,
                    k as nat,
                ),
                mark_cks,
            );
        }
        font_cksum = ((font_cksum as u64 + cks as u64) % 0x1_0000_0000) as u32;
        font_cksum = ((font_cksum as u64 + mark_cks as u64) % 0x1_0000_0000) as u32;
        offset = offset + ser.len();
        offset = offset + (4 - offset % 4) % 4;
        k = k + 1;
    }
    let dir = bytes_mut_to_vec(&directory);
    let dir_cksum = ttf_checksum(dir.as_slice());
    proof {
        lemma_add_mod(checksum(header@) + checksum_total(pieces, 9) + mark_total(pieces, 9), dir_cksum);
    }
    font_cksum = ((font_cksum as u64 + dir_cksum as u64) % 0x1_0000_0000) as u32;
    (dir, font_cksum)
}

/// The mark of a table as a vector of its own.
fn mark_bytes(tag: [u8; 4]) -> (v: Vec<u8>)
    ensures
        v@ == debug_mark(tag@),
{
    let v = vec![0x5fu8, 0x5fu8, tag[0], tag[1], tag[2], tag[3], 0x5fu8, 0x5fu8];
    assert(tag@ =~= seq![tag[0], tag[1], tag[2], tag[3]]);
    assert(v@ =~= debug_mark(tag@));
    v
}

/// Writes the mark of a table: two underscores, its tag, two underscores.
fn put_mark<W: BufSink>(w: &mut W, tag: [u8; 4])
    requires
        old(w).written().len() + 8 <= isize::MAX,
    ensures
        final(w).written() == old(w).written() + debug_mark(tag@),
{
    w.put_u8(0x5f);
    w.put_u8(0x5f);
    w.put_u8(tag[0]);
    w.put_u8(tag[1]);
    w.put_u8(tag[2]);
    w.put_u8(tag[3]);
    w.put_u8(0x5f);
    w.put_u8(0x5f);
    assert(tag@ =~= seq![tag[0], tag[1], tag[2], tag[3]]);
    assert(w.written() =~= old(w).written() + debug_mark(tag@));
}

/// Writes the tables, each after its mark and padded to a multiple of four
/// bytes; the first one is `head_ser` in place of `sers[0]`.
fn write_tables<W: BufSink>(
    w: &mut W,
    Ghost(written): Ghost<Seq<TablePiece>>,
    sers: &Vec<Vec<u8>>,
    tags: &Vec<[u8; 4]>,
    head_ser: &Vec<u8>,
)
    requires
        written.len() == 9,
        sers@.len() == 9,
        tags@.len() == 9,
        head_ser@ == written[0].1,
        forall|k: int| 1 <= k < 9 ==> (#[trigger] sers@[k])@ == written[k].1,
        forall|k: int| 0 <= k < 9 ==> (#[trigger] tags@[k])@ == written[k].0,
        old(w).written().len() + tables_bytes(written, 9).len() <= isize::MAX,
    ensures
        final(w).written() == old(w).written() + tables_bytes(written, 9),
{
    let ghost base = old(w).written();
    let mut k: usize = 0;
    while k < 9
        invariant
            written.len() == 9,
            sers@.len() == 9,
            tags@.len() == 9,
            head_ser@ == written[0].1,
            forall|j: int| 1 <= j < 9 ==> (#[trigger] sers@[j])@ == written[j].1,
            forall|j: int| 0 <= j < 9 ==> (#[trigger] tags@[j])@ == written[j].0,
            base.len() + tables_bytes(written, 9).len() <= isize::MAX,
            k <= 9,
            w.written() == base + tables_bytes(written, k as nat),
        decreases 9 - k,
    {
        proof {
            lemma_tables_mono(written, (k + 1) as nat, 9);
        }
        let ser = if k == 0 {
            head_ser
        } else {
            &sers[k]
        };
        assert(ser@ == written[k as int].1);
        put_mark(w, tags[k]);
        w.put_slice(ser.as_slice());
        pad_to_4_bytes(ser.len(), w);
        assert(w.written() =~= base + tables_bytes(written, (k + 1) as nat));
        k = k + 1;
    }
}

impl FontFile {
    /// Writes the font file: the header and the table directory, then each
    /// table after its mark, padded to a multiple of four bytes, with the
    /// `head` table's `checksum_adjustment` computed from all the rest.
    ///
    /// Fonts with `CFF2` outlines cannot be written yet.
    pub fn write<W: BufSink>(&self, w: &mut W)
        requires
            self.writable(),
            old(w).written().len() + self.file_bytes().len() <= isize::MAX,
        ensures
            final(w).written() == old(w).written() + self.file_bytes(),
    {
        let ghost pieces = self.pieces();
        let ghost written = self.pieces_with_head(self.adjusted_head());
        proof {
            self.lemma_layout();
            self.lemma_tags();
            assert forall|j: int| 0 <= j < 9 implies (#[trigger] pieces[j]).1.len() <= isize::MAX by {
                lemma_data_offset_aligned(pieces, j as nat);
                assert(data_offset(pieces, j as nat) + pieces[j].1.len() <= self.file_bytes().len());
            }
        }
        let (sers, tags) = self.serialize_all();
        let header = file_header_bytes(9);
        let (directory, font_cksum) = directory_and_checksum(Ghost(pieces), &sers, &tags, &header);
        // The `head` table is written again with the checksum adjustment.
        let cksum_adjustment: u32 = ((0xB1B0AFBAu64 + 0x1_0000_0000 - font_cksum as u64)
            % 0x1_0000_0000) as u32;
        proof {
            vstd::arithmetic::div_mod::lemma_mod_multiples_vanish(
                1,
                0xB1B0AFBA - font_cksum,
                0x1_0000_0000,
            );
        }
        let new_head = head::Table { checksum_adjustment: cksum_adjustment, ..self.head };
        assert(new_head == self.adjusted_head());
        proof {
            lemma_head_piece_len(self.head, new_head);
            assert(pieces[0] == table_piece(&self.head));
            assert(pieces[0].1.len() <= isize::MAX);
        }
        let head_ser = serialize(&new_head);
        w.put_slice(header.as_slice());
        w.put_slice(directory.as_slice());
        pad_to_4_bytes(header.len() + directory.len(), w);
        proof {
            assert(pad_for(156) =~= Seq::<u8>::empty());
            assert forall|k: int| 0 <= k < 9 implies (#[trigger] tags@[k])@ == written[k].0 by {
                if k == 0 {
                    assert(table_piece(&new_head).0 == table_piece(&self.head).0);
                }
            }
        }
        write_tables(w, Ghost(written), &sers, &tags, &head_ser);
        assert(w.written() =~= old(w).written() + self.file_bytes());
    }
}

/// The sum of the words of the first `k` tables.
pub open spec fn word_total(pieces: Seq<TablePiece>, k: nat) -> int
    decreases k,
{
    if k == 0 {
        0
    } else {
        word_total(pieces, (k - 1) as nat) + word_sum(pieces[k - 1].1)
    }
}

/// The sum of the words of the marks of the first `k` tables.
pub open spec fn mark_word_total(pieces: Seq<TablePiece>, k: nat) -> int
    decreases k,
{
    if k == 0 {
        0
    } else {
        mark_word_total(pieces, (k - 1) as nat) + word_sum(debug_mark(pieces[k - 1].0))
    }
}

/// Each table, after its mark and padded to a multiple of four bytes, adds
/// the words of its mark and its own words.
proof fn lemma_tables_word_sum(written: Seq<TablePiece>, k: nat)
    requires
        k <= written.len(),
        forall|j: int| 0 <= j < written.len() ==> (#[trigger] written[j]).0.len() == 4,
    ensures
        word_sum(tables_bytes(written, k)) == word_total(written, k) + mark_word_total(
            written,
            k,
        ),
        tables_bytes(written, k).len() % 4 == 0,
    decreases k,
{
    if k > 0 {
        lemma_tables_word_sum(written, (k - 1) as nat);
        let prev = tables_bytes(written, (k - 1) as nat);
        let m = debug_mark(written[k - 1].0);
        let p = written[k - 1].1;
        let padded = p + pad_for(p.len() as int);
        assert(written[k - 1].0.len() == 4);
        assert(tables_bytes(written, k) =~= prev + (m + padded));
        lemma_word_sum_append(prev, m + padded);
        lemma_word_sum_append(m, padded);
        lemma_word_sum_zeros(p, ((4 - p.len() % 4) % 4) as nat);
    }
}

/// Marks depend on the tags alone.
proof fn lemma_mark_words_same_tags(a: Seq<TablePiece>, b: Seq<TablePiece>, k: nat)
    requires
        k <= a.len(),
        a.len() == b.len(),
        forall|j: int| 0 <= j < a.len() ==> (#[trigger] a[j]).0 == b[j].0,
    ensures
        mark_word_total(a, k) == mark_word_total(b, k),
    decreases k,
{
    if k > 0 {
        lemma_mark_words_same_tags(a, b, (k - 1) as nat);
        assert(a[k - 1].0 == b[k - 1].0);
    }
}

/// The checksums of the marks add up, modulo 2^32, to their words.
proof fn lemma_mark_total(pieces: Seq<TablePiece>, k: nat)
    requires
        k <= pieces.len(),
    ensures
        mark_total(pieces, k) % 0x1_0000_0000 == mark_word_total(pieces, k) % 0x1_0000_0000,
    decreases k,
{
    if k > 0 {
        lemma_mark_total(pieces, (k - 1) as nat);
        let a = mark_total(pieces, (k - 1) as nat);
        let b = mark_word_total(pieces, (k - 1) as nat);
        let w = word_sum(debug_mark(pieces[k - 1].0));
        vstd::arithmetic::div_mod::lemma_add_mod_noop(a, w % 0x1_0000_0000, 0x1_0000_0000);
        vstd::arithmetic::div_mod::lemma_add_mod_noop(b, w, 0x1_0000_0000);
        vstd::arithmetic::div_mod::lemma_mod_twice(w, 0x1_0000_0000);
    }
}

/// Sums of terms that agree modulo `m` agree modulo `m`.
proof fn lemma_sum4_mod(a: int, b: int, c: int, d: int, a2: int, b2: int, c2: int, d2: int)
    requires
        a % 0x1_0000_0000 == a2 % 0x1_0000_0000,
        b % 0x1_0000_0000 == b2 % 0x1_0000_0000,
        c % 0x1_0000_0000 == c2 % 0x1_0000_0000,
        d % 0x1_0000_0000 == d2 % 0x1_0000_0000,
    ensures
        (a + b + c + d) % 0x1_0000_0000 == (a2 + b2 + c2 + d2) % 0x1_0000_0000,
{
    let m: int = 0x1_0000_0000;
    vstd::arithmetic::div_mod::lemma_fundamental_div_mod(a, m);
    vstd::arithmetic::div_mod::lemma_fundamental_div_mod(b, m);
    vstd::arithmetic::div_mod::lemma_fundamental_div_mod(c, m);
    vstd::arithmetic::div_mod::lemma_fundamental_div_mod(d, m);
    vstd::arithmetic::div_mod::lemma_fundamental_div_mod(a2, m);
    vstd::arithmetic::div_mod::lemma_fundamental_div_mod(b2, m);
    vstd::arithmetic::div_mod::lemma_fundamental_div_mod(c2, m);
    vstd::arithmetic::div_mod::lemma_fundamental_div_mod(d2, m);
    let k = a / m - a2 / m + b / m - b2 / m + c / m - c2 / m + d / m - d2 / m;
    assert(a + b + c + d == m * k + (a2 + b2 + c2 + d2)) by (nonlinear_arith)
        requires
            a == m * (a / m) + a % m,
            b == m * (b / m) + b % m,
            c == m * (c / m) + c % m,
            d == m * (d / m) + d % m,
            a2 == m * (a2 / m) + a2 % m,
            b2 == m * (b2 / m) + b2 % m,
            c2 == m * (c2 / m) + c2 % m,
            d2 == m * (d2 / m) + d2 % m,
            a % m == a2 % m,
            b % m == b2 % m,
            c % m == c2 % m,
            d % m == d2 % m,
            k == a / m - a2 / m + b / m - b2 / m + c / m - c2 / m + d / m - d2 / m,
    ;
    vstd::arithmetic::div_mod::lemma_mod_multiples_vanish(k, a2 + b2 + c2 + d2, m);
}

/// The checksums of the tables add up, modulo 2^32, to their words.
proof fn lemma_checksum_total(pieces: Seq<TablePiece>, k: nat)
    requires
        k <= pieces.len(),
    ensures
        checksum_total(pieces, k) % 0x1_0000_0000 == word_total(pieces, k) % 0x1_0000_0000,
    decreases k,
{
    if k > 0 {
        lemma_checksum_total(pieces, (k - 1) as nat);
        let a = checksum_total(pieces, (k - 1) as nat);
        let b = word_total(pieces, (k - 1) as nat);
        let w = word_sum(pieces[k - 1].1);
        vstd::arithmetic::div_mod::lemma_add_mod_noop(a, w % 0x1_0000_0000, 0x1_0000_0000);
        vstd::arithmetic::div_mod::lemma_add_mod_noop(b, w, 0x1_0000_0000);
        vstd::arithmetic::div_mod::lemma_mod_twice(w, 0x1_0000_0000);
    }
}

proof fn lemma_word_total_head(written: Seq<TablePiece>, pieces: Seq<TablePiece>, k: nat, extra: int)
    requires
        1 <= k <= pieces.len(),
        written.len() == pieces.len(),
        word_sum(written[0].1) == word_sum(pieces[0].1) + extra,
        forall|j: int| 1 <= j < pieces.len() ==> #[trigger] written[j] == pieces[j],
    ensures
        word_total(written, k) == word_total(pieces, k) + extra,
    decreases k,
{
    if k > 1 {
        lemma_word_total_head(written, pieces, (k - 1) as nat, extra);
        assert(written[k - 1] == pieces[k - 1]);
    } else {
        assert(word_total(written, 0) == 0);
        assert(word_total(pieces, 0) == 0);
    }
}

proof fn lemma_adjustment_mod(s: int, k: int)
    requires
        0 <= k < 0x1_0000_0000,
    ensures
        (s + (k - s % 0x1_0000_0000) % 0x1_0000_0000) % 0x1_0000_0000 == k,
{
    let m: int = 0x1_0000_0000;
    let r = s % m;
    let t = (k - r) % m;
    vstd::arithmetic::div_mod::lemma_fundamental_div_mod(s, m);
    vstd::arithmetic::div_mod::lemma_fundamental_div_mod(k - r, m);
    assert(s + t == k + m * (s / m - (k - r) / m)) by (nonlinear_arith)
        requires
            s == m * (s / m) + r,
            k - r == m * ((k - r) / m) + t,
    ;
    vstd::arithmetic::div_mod::lemma_mod_multiples_vanish(s / m - (k - r) / m, k, m);
    vstd::arithmetic::div_mod::lemma_small_mod(k as nat, m as nat);
}

proof fn lemma_head_piece(t: head::Table)
    ensures
        table_piece(&t).1 == t.encoding(),
{
    reveal(table_piece);
}

/// With a `head` table whose `checksum_adjustment` is zero, the written
/// font file has the checksum 0xB1B0AFBA that OpenType asks of a whole
/// font: the adjustment written into `head` makes up for everything else,
/// the marks before the tables included.
#[verifier::rlimit(30)]
pub proof fn lemma_font_checksum(font: &FontFile)
    requires
        font.writable(),
        font.head.checksum_adjustment == 0,
    ensures
        checksum(font.file_bytes()) == 0xB1B0AFBA,
{
    font.lemma_layout();
    font.lemma_tags();
    let pieces = font.pieces();
    let written = font.pieces_with_head(font.adjusted_head());
    let h = file_header(9);
    let d = directory_bytes(pieces, 9);
    let t = tables_bytes(written, 9);
    let adj = font.adjusted_head().checksum_adjustment;
    lemma_tables_word_sum(written, 9);
    lemma_word_sum_append(h, d + t);
    lemma_word_sum_append(d, t);
    assert(font.file_bytes() =~= h + (d + t));
    // The adjusted head adds its adjustment to the words of the head.
    font.adjusted_head().lemma_word_sum_adjustment();
    assert(head::Table { checksum_adjustment: 0, ..font.adjusted_head() } == font.head);
    lemma_head_piece(font.adjusted_head());
    lemma_head_piece(font.head);
    assert(written[0].1 == font.adjusted_head().encoding());
    assert(pieces[0].1 == font.head.encoding());
    assert forall|j: int| 1 <= j < 9 implies #[trigger] written[j] == pieces[j] by {}
    lemma_word_total_head(written, pieces, 9, adj as int);
    assert forall|j: int| 0 <= j < 9 implies (#[trigger] written[j]).0 == pieces[j].0 by {}
    lemma_mark_words_same_tags(written, pieces, 9);
    // The adjustment completes the sum of everything else to 0xB1B0AFBA.
    let s = word_sum(h) + word_total(pieces, 9) + mark_word_total(pieces, 9) + word_sum(d);
    lemma_checksum_total(pieces, 9);
    lemma_mark_total(pieces, 9);
    vstd::arithmetic::div_mod::lemma_mod_twice(word_sum(h), 0x1_0000_0000);
    vstd::arithmetic::div_mod::lemma_mod_twice(word_sum(d), 0x1_0000_0000);
    lemma_sum4_mod(
        checksum(h) as int,
        checksum_total(pieces, 9),
        mark_total(pieces, 9),
        checksum(d) as int,
        word_sum(h),
        word_total(pieces, 9),
        mark_word_total(pieces, 9),
        word_sum(d),
    );
    assert(font.font_checksum() == s % 0x1_0000_0000);
    assert(word_sum(font.file_bytes()) == s + adj);
    lemma_adjustment_mod(s, 0xB1B0AFBA);
}

proof fn lemma_tables_prefix(written: Seq<TablePiece>, k: nat, m: nat)
    requires
        k <= m <= written.len(),
    ensures
        tables_bytes(written, m).len() >= tables_bytes(written, k).len(),
        tables_bytes(written, m).subrange(0, tables_bytes(written, k).len() as int)
            == tables_bytes(written, k),
    decreases m,
{
    if k < m {
        lemma_tables_prefix(written, k, (m - 1) as nat);
        let a = tables_bytes(written, k);
        let b = tables_bytes(written, (m - 1) as nat);
        let c = tables_bytes(written, m);
        assert(c.subrange(0, b.len() as int) =~= b);
        assert(c.subrange(0, a.len() as int) =~= b.subrange(0, a.len() as int));
    } else {
        assert(tables_bytes(written, m).subrange(0, tables_bytes(written, k).len() as int)
            =~= tables_bytes(written, k));
    }
}

proof fn lemma_directory_prefix(pieces: Seq<TablePiece>, k: nat, m: nat)
    requires
        k <= m <= pieces.len(),
    ensures
        directory_bytes(pieces, m).len() >= directory_bytes(pieces, k).len(),
        directory_bytes(pieces, m).subrange(0, directory_bytes(pieces, k).len() as int)
            == directory_bytes(pieces, k),
    decreases m,
{
    if k < m {
        lemma_directory_prefix(pieces, k, (m - 1) as nat);
        let a = directory_bytes(pieces, k);
        let b = directory_bytes(pieces, (m - 1) as nat);
        let c = directory_bytes(pieces, m);
        assert(c.subrange(0, b.len() as int) =~= b);
        assert(c.subrange(0, a.len() as int) =~= b.subrange(0, a.len() as int));
    } else {
        assert(directory_bytes(pieces, m).subrange(0, directory_bytes(pieces, k).len() as int)
            =~= directory_bytes(pieces, k));
    }
}

/// In a layout of nine tables, the directory record of table `k` stands at
/// `12 + 16 k`, and the table's bytes stand at the offset it records, after
/// the table's mark.
proof fn lemma_layout_locates(p: Seq<TablePiece>, w: Seq<TablePiece>, k: int)
    requires
        p.len() == 9,
        w.len() == 9,
        0 <= k < 9,
        forall|j: int| 0 <= j < 9 ==> (#[trigger] w[j]).1.len() == p[j].1.len(),
        forall|j: int| 0 <= j < 9 ==> (#[trigger] w[j]).0.len() == 4,
        forall|j: int| 0 <= j < 9 ==> (#[trigger] p[j]).0.len() == 4,
    ensures
        ({
            let f = layout(p, w);
            let o = data_offset(p, k as nat);
            &&& f.subrange(12 + 16 * k, 28 + 16 * k) == record_bytes(p, k)
            &&& o % 4 == 0
            &&& o + w[k].1.len() <= f.len()
            &&& f.subrange(o - 8, o) == debug_mark(w[k].0)
            &&& f.subrange(o, o + w[k].1.len()) == w[k].1
        }),
{
    let f = layout(p, w);
    let o = data_offset(p, k as nat);
    let h = file_header(9);
    let d = directory_bytes(p, 9);
    let t = tables_bytes(w, 9);
    assert(f == h + d + t);
    lemma_directory_len(p, 9);
    // The record.
    lemma_directory_prefix(p, (k + 1) as nat, 9);
    lemma_directory_len(p, k as nat);
    lemma_directory_len(p, (k + 1) as nat);
    let dk = directory_bytes(p, (k + 1) as nat);
    assert(dk == directory_bytes(p, k as nat) + record_bytes(p, k));
    assert(f.subrange(12 + 16 * k, 28 + 16 * k) =~= dk.subrange(16 * k, 16 * k + 16));
    assert(dk.subrange(16 * k, 16 * k + 16) =~= record_bytes(p, k));
    // The table.
    lemma_data_offset_aligned(p, k as nat);
    lemma_tables_len(p, w, k as nat);
    lemma_tables_prefix(w, (k + 1) as nat, 9);
    let tk = tables_bytes(w, k as nat);
    let tk1 = tables_bytes(w, (k + 1) as nat);
    let n: int = tk.len() as int;
    let l: int = w[k].1.len() as int;
    assert(tk1 == tk + debug_mark(w[k].0) + w[k].1 + pad_for(w[k].1.len() as int));
    assert(o == 156 + tk.len() + 8);
    assert(f.subrange(o - 8, o) =~= tk1.subrange(n, n + 8));
    assert(tk1.subrange(n, n + 8) =~= debug_mark(w[k].0));
    assert(f.subrange(o, o + l) =~= tk1.subrange(n + 8, n + 8 + l));
    assert(tk1.subrange(n + 8, n + 8 + l) =~= w[k].1);
}

/// In the written font, the directory record of table `k` stands at
/// `12 + 16 k` and holds its tag, checksum, offset and length; at that
/// offset, a multiple of four, the bytes of the table start, right after
/// its mark.
pub proof fn lemma_directory_locates_tables(font: &FontFile, k: int)
    requires
        font.writable(),
        0 <= k < 9,
    ensures
        ({
            let f = font.file_bytes();
            let p = font.pieces();
            let w = font.pieces_with_head(font.adjusted_head());
            let o = data_offset(p, k as nat);
            &&& f.subrange(12 + 16 * k, 28 + 16 * k) == record_bytes(p, k)
            &&& o % 4 == 0
            &&& f.subrange(o - 8, o) == debug_mark(w[k].0)
            &&& f.subrange(o, o + w[k].1.len()) == w[k].1
        }),
{
    font.lemma_layout();
    lemma_layout_locates(font.pieces(), font.pieces_with_head(font.adjusted_head()), k);
}

} // verus!
