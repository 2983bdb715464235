//! The bytes that travel on the SPI bus: command bytes, register frames and
//! the decoding of register values read back.
use vstd::prelude::*;

use crate::config::MAX_ADDRESS;

verus! {

/// Most registers one burst reads or writes.
pub const MAX_BURST: usize = 20;

/// Capacity of a burst buffer: one address byte and two bytes per register.
pub const BURST_CAPACITY: usize = 41;

#[verifier::external_type_specification]
#[verifier::external_body]
#[verifier::reject_recursive_types(T)]
pub struct ExHeaplessVec<T, const N: usize>(heapless::Vec<T, N>);

/// The bytes held by a burst buffer, in order.
pub uninterp spec fn burst_bytes(v: heapless::Vec<u8, 41>) -> Seq<u8>;

/// `heapless::Vec::new`: a buffer that holds nothing.
#[verifier::external_body]
fn burst_buffer_new() -> (v: heapless::Vec<u8, 41>)
    ensures
        burst_bytes(v) == Seq::<u8>::empty(),
{
    heapless::Vec::new()
}

/// `heapless::Vec::resize` with the fill value 0: a length above the capacity
/// is refused and the buffer left as it was; otherwise the buffer is cut to
/// `new_len` bytes or extended with zeros to `new_len` bytes.
#[verifier::external_body]
fn burst_buffer_resize(v: &mut heapless::Vec<u8, 41>, new_len: usize) -> (r: Result<(), ()>)
    ensures
        r is Ok <==> new_len <= 41,
        r is Ok ==> burst_bytes(*final(v)).len() == new_len,
        r is Ok ==> forall|i: int|
            0 <= i < new_len ==> #[trigger] burst_bytes(*final(v))[i] == if i < burst_bytes(
                *old(v),
            ).len() {
                burst_bytes(*old(v))[i]
            } else {
                0u8
            },
        r is Err ==> burst_bytes(*final(v)) == burst_bytes(*old(v)),
{
    v.resize(new_len, 0)
}

/// Assignment to an element through `heapless::Vec`'s `DerefMut` to a slice:
/// the byte at `i` becomes `x`, the others stay.
#[verifier::external_body]
fn burst_buffer_set(v: &mut heapless::Vec<u8, 41>, i: usize, x: u8)
    requires
        i < burst_bytes(*old(v)).len(),
    ensures
        burst_bytes(*final(v)) == burst_bytes(*old(v)).update(i as int, x),
{
    v[i] = x;
}

/// The command byte that writes registers from `address` on.
pub open spec fn write_command(address: u8) -> u8 {
    (2 * address) as u8
}

/// The command byte that reads registers from `address` on.
pub open spec fn read_command(address: u8) -> u8 {
    (2 * address + 1) as u8
}

/// The high byte of a register value.
pub open spec fn high_byte(w: u16) -> u8 {
    (w / 256) as u8
}

/// The low byte of a register value.
pub open spec fn low_byte(w: u16) -> u8 {
    (w % 256) as u8
}

/// The register value sent as the bytes `hi`, `lo`.
pub open spec fn word_of(hi: u8, lo: u8) -> u16 {
    (256 * hi + lo) as u16
}

/// Register values as bytes on the bus, each high byte first.
pub open spec fn words_bytes(words: Seq<u16>) -> Seq<u8> {
    Seq::new(
        2 * words.len(),
        |k: int|
            if k % 2 == 0 {
                high_byte(words[k / 2])
            } else {
                low_byte(words[k / 2])
            },
    )
}

/// The frame that writes one register: the command byte and the value.
pub open spec fn word_frame(address: u8, data: u16) -> Seq<u8> {
    seq![write_command(address), high_byte(data), low_byte(data)]
}

/// The frame that writes consecutive registers from `start` on.
pub open spec fn burst_frame(start: u8, data: Seq<u16>) -> Seq<u8> {
    seq![write_command(start)] + words_bytes(data)
}

/// The (register, value) pairs a write frame sets: the first byte names the
/// first register, each following pair of bytes is the value of the next one.
pub open spec fn frame_writes(frame: Seq<u8>) -> Seq<(int, u16)> {
    Seq::new(
        ((frame.len() - 1) / 2) as nat,
        |i: int| (frame[0] / 2 + i, word_of(frame[2 * i + 1], frame[2 * i + 2])),
    )
}

/// The `n` register values carried by the bytes received during a read: the
/// first byte arrives while the command is sent, the values follow it.
pub open spec fn decode_words(received: Seq<u8>, n: nat) -> Seq<u16> {
    Seq::new(n, |i: int| word_of(received[2 * i + 1], received[2 * i + 2]))
}

/// Whether `n` consecutive registers from `start` on all exist, and a burst
/// may hold them.
pub open spec fn burst_fits(start: u8, n: nat) -> bool {
    n <= MAX_BURST && start + n - 1 <= MAX_ADDRESS
}

/// The command byte that reads registers from `address` on.
pub fn read_command_byte(address: u8) -> (b: u8)
    requires
        address < 128,
    ensures
        b == read_command(address),
        b == 2 * address + 1,
{
    assert(address < 128 ==> address << 1u8 | 1u8 == 2 * address + 1) by (bit_vector);
    address << 1 | 1
}

/// The command byte that writes registers from `address` on.
pub fn write_command_byte(address: u8) -> (b: u8)
    requires
        address < 128,
    ensures
        b == write_command(address),
        b == 2 * address,
{
    assert(address < 128 ==> address << 1u8 == 2 * address) by (bit_vector);
    address << 1
}

/// The high byte of a register value.
pub fn high_byte_of(w: u16) -> (b: u8)
    ensures
        b == high_byte(w),
{
    assert((w >> 8u16) as u8 == w / 256) by (bit_vector);
    (w >> 8) as u8
}

/// The low byte of a register value.
pub fn low_byte_of(w: u16) -> (b: u8)
    ensures
        b == low_byte(w),
{
    assert((w & 0xffu16) as u8 == w % 256) by (bit_vector);
    (w & 0xff) as u8
}

/// The register value sent as the bytes `hi`, `lo`.
pub fn decode_word(hi: u8, lo: u8) -> (w: u16)
    ensures
        w == word_of(hi, lo),
        w == 256 * hi + lo,
{
    assert(((hi as u16) << 8u16 | lo as u16) == 256 * hi + lo) by (bit_vector);
    (hi as u16) << 8 | lo as u16
}

/// The frame that writes one register.
pub fn encode_word_frame(address: u8, data: u16) -> (frame: [u8; 3])
    requires
        address <= MAX_ADDRESS,
    ensures
        frame@ == word_frame(address, data),
{
    let frame = [write_command_byte(address), high_byte_of(data), low_byte_of(data)];
    assert(frame@ =~= word_frame(address, data));
    frame
}

/// Whether `n` consecutive registers from `start` on may be read or written
/// in one burst.
pub fn burst_in_range(start: u8, n: usize) -> (ok: bool)
    requires
        n > MAX_BURST || 1 <= start + n <= 255,
    ensures
        ok == burst_fits(start, n as nat),
{
    !(n > MAX_BURST || start + n as u8 - 1 > MAX_ADDRESS)
}

/// The frame that writes `data` to consecutive registers from `start` on,
/// in a buffer of fixed capacity.
pub fn encode_burst_frame(start: u8, data: &[u16]) -> (buf: heapless::Vec<u8, 41>)
    requires
        burst_fits(start, data@.len()),
    ensures
        burst_bytes(buf) == burst_frame(start, data@),
{
    let mut buf = burst_buffer_new();
    let _ = burst_buffer_resize(&mut buf, data.len() * 2 + 1);
    burst_buffer_set(&mut buf, 0, write_command_byte(start));
    let mut i: usize = 0;
    while i < data.len()
        invariant
            data@.len() <= MAX_BURST,
            i <= data@.len(),
            burst_bytes(buf).len() == 2 * data@.len() + 1,
            burst_bytes(buf)[0] == write_command(start),
            forall|k: int|
                1 <= k < 2 * i + 1 ==> #[trigger] burst_bytes(buf)[k] == burst_frame(
                    start,
                    data@,
                )[k],
        decreases data@.len() - i,
    {
        let w = data[i];
        burst_buffer_set(&mut buf, i * 2 + 1, high_byte_of(w));
        burst_buffer_set(&mut buf, i * 2 + 2, low_byte_of(w));
        i = i + 1;
    }
    assert(burst_bytes(buf) =~= burst_frame(start, data@));
    buf
}

/// The `n` register values in the bytes received during a read burst.
pub fn decode_burst(received: &[u8], n: usize) -> (words: Vec<u16>)
    requires
        received@.len() == 2 * n + 1,
    ensures
        words@ == decode_words(received@, n as nat),
{
    let len = received.len();
    let mut words: Vec<u16> = Vec::new();
    let mut i: usize = 0;
    while i < n
        invariant
            received@.len() == 2 * n + 1,
            len == 2 * n + 1,
            i <= n,
            words@ =~= decode_words(received@, i as nat),
        decreases n - i,
    {
        words.push(decode_word(received[2 * i + 1], received[2 * i + 2]));
        i = i + 1;
    }
    words
}

/// A register value survives the trip through its two bytes.
pub proof fn lemma_word_round_trip(w: u16)
    ensures
        word_of(high_byte(w), low_byte(w)) == w,
{
}

/// The bytes of a burst write, read back in the layout of a burst read
/// (the first byte standing where the command went), give back the values
/// written.
pub proof fn lemma_burst_round_trip(start: u8, data: Seq<u16>)
    ensures
        decode_words(burst_frame(start, data), data.len()) == data,
{
    let frame = burst_frame(start, data);
    assert forall|i: int| 0 <= i < data.len() implies #[trigger] decode_words(frame, data.len())[i]
        == data[i] by {
        assert(frame[2 * i + 1] == words_bytes(data)[2 * i]);
        assert(frame[2 * i + 2] == words_bytes(data)[2 * i + 1]);
        assert((2 * i + 1) / 2 == i);
        lemma_word_round_trip(data[i]);
    }
    assert(decode_words(frame, data.len()) =~= data);
}

} // verus!
