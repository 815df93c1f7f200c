//! Byte sinks that the table encoders write to.
use crate::bytes_spec::{i16_bytes, i32_bytes, i8_bytes, u16_bytes, u32_bytes, u64_bytes};
use bytes::BufMut;
use bytes::BytesMut;
use vstd::prelude::*;

verus! {

/// A destination of encoded bytes. Every method appends to what has been
/// written so far.
pub trait BufSink {
    /// The bytes written to the sink so far.
    spec fn written(&self) -> Seq<u8>;

    fn put_u8(&mut self, n: u8)
        requires
            old(self).written().len() + 1 <= isize::MAX,
        ensures
            final(self).written() == old(self).written().push(n);

    fn put_i8(&mut self, n: i8)
        requires
            old(self).written().len() + 1 <= isize::MAX,
        ensures
            final(self).written() == old(self).written() + i8_bytes(n);

    fn put_u16(&mut self, n: u16)
        requires
            old(self).written().len() + 2 <= isize::MAX,
        ensures
            final(self).written() == old(self).written() + u16_bytes(n);

    fn put_i16(&mut self, n: i16)
        requires
            old(self).written().len() + 2 <= isize::MAX,
        ensures
            final(self).written() == old(self).written() + i16_bytes(n);

    fn put_u32(&mut self, n: u32)
        requires
            old(self).written().len() + 4 <= isize::MAX,
        ensures
            final(self).written() == old(self).written() + u32_bytes(n);

    fn put_i32(&mut self, n: i32)
        requires
            old(self).written().len() + 4 <= isize::MAX,
        ensures
            final(self).written() == old(self).written() + i32_bytes(n);

    fn put_u64(&mut self, n: u64)
        requires
            old(self).written().len() + 8 <= isize::MAX,
        ensures
            final(self).written() == old(self).written() + u64_bytes(n);

    fn put_slice(&mut self, src: &[u8])
        requires
            old(self).written().len() + src@.len() <= isize::MAX,
        ensures
            final(self).written() == old(self).written() + src@;

    /// Appends `cnt` copies of `val`.
    fn put_bytes(&mut self, val: u8, cnt: usize)
        requires
            old(self).written().len() + cnt <= isize::MAX,
        ensures
            final(self).written() == old(self).written() + Seq::new(cnt as nat, |i: int| val);

    /// Appends the bytes of another buffer.
    fn put(&mut self, src: BytesMut)
        requires
            old(self).written().len() + bytes_mut_contents(src).len() <= isize::MAX,
        ensures
            final(self).written() == old(self).written() + bytes_mut_contents(src);
}

#[verifier::external_type_specification]
#[verifier::external_body]
pub struct ExBytesMut(bytes::BytesMut);

/// What a `bytes::BytesMut` buffer holds.
pub uninterp spec fn bytes_mut_contents(b: BytesMut) -> Seq<u8>;

/// Calls `BytesMut::new`: the new buffer is empty.
#[verifier::external_body]
pub(crate) fn bytes_mut_new() -> (b: BytesMut)
    ensures
        bytes_mut_contents(b) == Seq::<u8>::empty(),
{
    BytesMut::new()
}

/// Calls `BytesMut::to_vec` (through its slice): the vector holds the
/// buffer's bytes.
#[verifier::external_body]
pub(crate) fn bytes_mut_to_vec(b: &BytesMut) -> (v: Vec<u8>)
    ensures
        v@ == bytes_mut_contents(*b),
{
    b.to_vec()
}

/// Calls `BytesMut::len`: the number of bytes in the buffer.
#[verifier::external_body]
pub(crate) fn bytes_mut_len(b: &BytesMut) -> (n: usize)
    ensures
        n == bytes_mut_contents(*b).len(),
{
    b.len()
}

/// Calls `BufMut::put_u8` on a `BytesMut`: appends the byte. The buffer
/// panics past `isize::MAX` bytes.
#[verifier::external_body]
fn bytes_mut_put_u8(b: &mut BytesMut, n: u8)
    requires
        bytes_mut_contents(*old(b)).len() + 1 <= isize::MAX,
    ensures
        bytes_mut_contents(*final(b)) == bytes_mut_contents(*old(b)).push(n),
{
    BufMut::put_u8(b, n)
}

/// Calls `BufMut::put_i8` on a `BytesMut`: appends the byte of `n`.
#[verifier::external_body]
fn bytes_mut_put_i8(b: &mut BytesMut, n: i8)
    requires
        bytes_mut_contents(*old(b)).len() + 1 <= isize::MAX,
    ensures
        bytes_mut_contents(*final(b)) == bytes_mut_contents(*old(b)) + i8_bytes(n),
{
    BufMut::put_i8(b, n)
}

/// Calls `BufMut::put_u16` on a `BytesMut`: appends `n` big-endian.
#[verifier::external_body]
fn bytes_mut_put_u16(b: &mut BytesMut, n: u16)
    requires
        bytes_mut_contents(*old(b)).len() + 2 <= isize::MAX,
    ensures
        bytes_mut_contents(*final(b)) == bytes_mut_contents(*old(b)) + u16_bytes(n),
{
    BufMut::put_u16(b, n)
}

/// Calls `BufMut::put_i16` on a `BytesMut`: appends `n` big-endian in
/// two's complement.
#[verifier::external_body]
fn bytes_mut_put_i16(b: &mut BytesMut, n: i16)
    requires
        bytes_mut_contents(*old(b)).len() + 2 <= isize::MAX,
    ensures
        bytes_mut_contents(*final(b)) == bytes_mut_contents(*old(b)) + i16_bytes(n),
{
    BufMut::put_i16(b, n)
}

/// Calls `BufMut::put_u32` on a `BytesMut`: appends `n` big-endian.
#[verifier::external_body]
fn bytes_mut_put_u32(b: &mut BytesMut, n: u32)
    requires
        bytes_mut_contents(*old(b)).len() + 4 <= isize::MAX,
    ensures
        bytes_mut_contents(*final(b)) == bytes_mut_contents(*old(b)) + u32_bytes(n),
{
    BufMut::put_u32(b, n)
}

/// Calls `BufMut::put_i32` on a `BytesMut`: appends `n` big-endian in
/// two's complement.
#[verifier::external_body]
fn bytes_mut_put_i32(b: &mut BytesMut, n: i32)
    requires
        bytes_mut_contents(*old(b)).len() + 4 <= isize::MAX,
    ensures
        bytes_mut_contents(*final(b)) == bytes_mut_contents(*old(b)) + i32_bytes(n),
{
    BufMut::put_i32(b, n)
}

/// Calls `BufMut::put_u64` on a `BytesMut`: appends `n` big-endian.
#[verifier::external_body]
fn bytes_mut_put_u64(b: &mut BytesMut, n: u64)
    requires
        bytes_mut_contents(*old(b)).len() + 8 <= isize::MAX,
    ensures
        bytes_mut_contents(*final(b)) == bytes_mut_contents(*old(b)) + u64_bytes(n),
{
    BufMut::put_u64(b, n)
}

/// Calls `BufMut::put_slice` on a `BytesMut`: appends the slice.
#[verifier::external_body]
fn bytes_mut_put_slice(b: &mut BytesMut, src: &[u8])
    requires
        bytes_mut_contents(*old(b)).len() + src@.len() <= isize::MAX,
    ensures
        bytes_mut_contents(*final(b)) == bytes_mut_contents(*old(b)) + src@,
{
    BufMut::put_slice(b, src)
}

/// Calls `BufMut::put_bytes` on a `BytesMut`: appends `cnt` copies of
/// `val`. The buffer panics past `isize::MAX` bytes.
#[verifier::external_body]
fn bytes_mut_put_bytes(b: &mut BytesMut, val: u8, cnt: usize)
    requires
        bytes_mut_contents(*old(b)).len() + cnt <= isize::MAX,
    ensures
        bytes_mut_contents(*final(b)) == bytes_mut_contents(*old(b)) + Seq::new(
            cnt as nat,
            |i: int| val,
        ),
{
    BufMut::put_bytes(b, val, cnt)
}

/// Calls `BufMut::put` on a `BytesMut` with another `BytesMut`: appends the
/// bytes of `src`, or, where the buffer has no capacity and so is empty,
/// takes over `src`. The buffer panics past `isize::MAX` bytes.
#[verifier::external_body]
fn bytes_mut_put(b: &mut BytesMut, src: BytesMut)
    requires
        bytes_mut_contents(*old(b)).len() + bytes_mut_contents(src).len() <= isize::MAX,
    ensures
        bytes_mut_contents(*final(b)) == bytes_mut_contents(*old(b)) + bytes_mut_contents(src),
{
    BufMut::put(b, src)
}

impl BufSink for BytesMut {
    open spec fn written(&self) -> Seq<u8> {
        bytes_mut_contents(*self)
    }

    fn put_u8(&mut self, n: u8) {
        bytes_mut_put_u8(self, n)
    }

    fn put_i8(&mut self, n: i8) {
        bytes_mut_put_i8(self, n)
    }

    fn put_u16(&mut self, n: u16) {
        assert(self.written().len() + 2 <= isize::MAX);
        assert(self.written() == bytes_mut_contents(*self));
        bytes_mut_put_u16(self, n);
    }

    fn put_i16(&mut self, n: i16) {
        bytes_mut_put_i16(self, n)
    }

    fn put_u32(&mut self, n: u32) {
        bytes_mut_put_u32(self, n)
    }

    fn put_i32(&mut self, n: i32) {
        bytes_mut_put_i32(self, n)
    }

    fn put_u64(&mut self, n: u64) {
        bytes_mut_put_u64(self, n)
    }

    fn put_slice(&mut self, src: &[u8]) {
        bytes_mut_put_slice(self, src)
    }

    fn put_bytes(&mut self, val: u8, cnt: usize) {
        bytes_mut_put_bytes(self, val, cnt)
    }

    fn put(&mut self, src: BytesMut) {
        bytes_mut_put(self, src)
    }
}

/// A sink that keeps only the number of bytes written to it, not the bytes
/// themselves. Used to measure what an encoder would write.
pub struct SizeOnlyBufWriter {
    size: usize,
    content: Ghost<Seq<u8>>,
}

impl SizeOnlyBufWriter {
    /// The size equals the length of what was written.
    pub closed spec fn wf(&self) -> bool {
        self.size == self.content@.len()
    }

    pub fn new() -> (w: Self)
        ensures
            w.written() == Seq::<u8>::empty(),
    {
        SizeOnlyBufWriter { size: 0, content: Ghost(Seq::empty()) }
    }

    pub fn size(&self) -> (s: usize)
        ensures
            s == self.written().len(),
    {
        proof { use_type_invariant(self); }
        self.size
    }

    #[verifier::type_invariant]
    closed spec fn inv(self) -> bool {
        self.wf()
    }

    fn advance(&mut self, cnt: usize, Ghost(bytes): Ghost<Seq<u8>>)
        requires
            bytes.len() == cnt,
            old(self).written().len() + cnt <= isize::MAX,
        ensures
            final(self).written() == old(self).written() + bytes,
    {
        proof { use_type_invariant(&*self); }
        let ghost content = self.content@ + bytes;
        *self = SizeOnlyBufWriter { size: self.size + cnt, content: Ghost(content) };
    }
}

impl Default for SizeOnlyBufWriter {
    fn default() -> (w: Self)
        ensures
            w.written() == Seq::<u8>::empty(),
    {
        Self::new()
    }
}

impl BufSink for SizeOnlyBufWriter {
    closed spec fn written(&self) -> Seq<u8> {
        self.content@
    }

    fn put_u8(&mut self, n: u8) {
        let ghost bytes = seq![n];
        self.advance(1, Ghost(bytes));
    }

    fn put_i8(&mut self, n: i8) {
        self.advance(1, Ghost(i8_bytes(n)));
    }

    fn put_u16(&mut self, n: u16) {
        self.advance(2, Ghost(u16_bytes(n)));
    }

    fn put_i16(&mut self, n: i16) {
        self.advance(2, Ghost(i16_bytes(n)));
    }

    fn put_u32(&mut self, n: u32) {
        self.advance(4, Ghost(u32_bytes(n)));
    }

    fn put_i32(&mut self, n: i32) {
        self.advance(4, Ghost(i32_bytes(n)));
    }

    fn put_u64(&mut self, n: u64) {
        self.advance(8, Ghost(u64_bytes(n)));
    }

    fn put_slice(&mut self, src: &[u8]) {
        self.advance(src.len(), Ghost(src@));
    }

    fn put_bytes(&mut self, val: u8, cnt: usize) {
        self.advance(cnt, Ghost(Seq::new(cnt as nat, |i: int| val)));
    }

    fn put(&mut self, src: BytesMut) {
        let n = bytes_mut_len(&src);
        self.advance(n, Ghost(bytes_mut_contents(src)));
    }
}

} // verus!
