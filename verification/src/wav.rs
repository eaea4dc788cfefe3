//! The bytes of an uncompressed single-channel 16-bit WAV file.

use vstd::bytes::{spec_u16_to_le_bytes, spec_u32_to_le_bytes, u16_to_le_bytes, u32_to_le_bytes};
use vstd::prelude::*;

verus! {

/// The four bytes of the tag `RIFF`.
pub open spec fn riff_tag() -> Seq<u8> {
    seq![0x52u8, 0x49u8, 0x46u8, 0x46u8]
}

/// The four bytes of the tag `WAVE`.
pub open spec fn wave_tag() -> Seq<u8> {
    seq![0x57u8, 0x41u8, 0x56u8, 0x45u8]
}

/// The four bytes of the tag `fmt `.
pub open spec fn fmt_tag() -> Seq<u8> {
    seq![0x66u8, 0x6du8, 0x74u8, 0x20u8]
}

/// The four bytes of the tag `data`.
pub open spec fn data_tag() -> Seq<u8> {
    seq![0x64u8, 0x61u8, 0x74u8, 0x61u8]
}

/// The 44 bytes that stand before the samples: the RIFF header, the format
/// chunk for one channel of 16-bit PCM at `sample_rate`, and the head of a
/// data chunk of `data_len` bytes. Numbers are little-endian.
pub open spec fn wav_header(sample_rate: u32, data_len: u32) -> Seq<u8> {
    riff_tag() + spec_u32_to_le_bytes((36 + data_len) as u32) + wave_tag() + fmt_tag()
        + spec_u32_to_le_bytes(16) + spec_u16_to_le_bytes(1) + spec_u16_to_le_bytes(1)
        + spec_u32_to_le_bytes(sample_rate) + spec_u32_to_le_bytes((sample_rate * 2) as u32)
        + spec_u16_to_le_bytes(2) + spec_u16_to_le_bytes(16) + data_tag() + spec_u32_to_le_bytes(
        data_len,
    )
}

/// A WAV file of `samples` samples of silence.
pub open spec fn silent_wav(sample_rate: u32, samples: u32) -> Seq<u8> {
    wav_header(sample_rate, (samples * 2) as u32) + Seq::new((samples * 2) as nat, |i: int| 0u8)
}

fn push_all(out: &mut Vec<u8>, bytes: &Vec<u8>)
    ensures
        final(out)@ == old(out)@ + bytes@,
{
    let mut i: usize = 0;
    while i < bytes.len()
        invariant
            i <= bytes.len(),
            out@ == old(out)@ + bytes@.take(i as int),
        decreases bytes.len() - i,
    {
        out.push(bytes[i]);
        assert(bytes@.take(i + 1) == bytes@.take(i as int).push(bytes@[i as int]));
        i = i + 1;
    }
    assert(bytes@.take(bytes.len() as int) == bytes@);
}

fn push_tag(out: &mut Vec<u8>, a: u8, b: u8, c: u8, d: u8)
    ensures
        final(out)@ == old(out)@ + seq![a, b, c, d],
{
    out.push(a);
    out.push(b);
    out.push(c);
    out.push(d);
    assert(out@ == old(out)@ + seq![a, b, c, d]);
}

/// The bytes of a WAV file of `samples` samples of silence at `sample_rate`.
/// The byte rate and the sizes written in the header must fit in 32 bits.
pub fn silent_wav_bytes(sample_rate: u32, samples: u32) -> (out: Vec<u8>)
    requires
        sample_rate * 2 <= u32::MAX,
        36 + samples * 2 <= u32::MAX,
    ensures
        out@ == silent_wav(sample_rate, samples),
        out@.len() == 44 + samples * 2,
{
    let data_len: u32 = samples * 2;
    let mut out: Vec<u8> = Vec::new();
    assert(out@ == Seq::<u8>::empty());
    push_tag(&mut out, 0x52, 0x49, 0x46, 0x46);
    push_all(&mut out, &u32_to_le_bytes(36 + data_len));
    push_tag(&mut out, 0x57, 0x41, 0x56, 0x45);
    push_tag(&mut out, 0x66, 0x6d, 0x74, 0x20);
    push_all(&mut out, &u32_to_le_bytes(16));
    push_all(&mut out, &u16_to_le_bytes(1));
    push_all(&mut out, &u16_to_le_bytes(1));
    push_all(&mut out, &u32_to_le_bytes(sample_rate));
    push_all(&mut out, &u32_to_le_bytes(sample_rate * 2));
    push_all(&mut out, &u16_to_le_bytes(2));
    push_all(&mut out, &u16_to_le_bytes(16));
    push_tag(&mut out, 0x64, 0x61, 0x74, 0x61);
    push_all(&mut out, &u32_to_le_bytes(data_len));
    assert(out@ == wav_header(sample_rate, data_len));
    let ghost header = out@;
    let mut i: u32 = 0;
    while i < data_len
        invariant
            i <= data_len,
            out@ == header + Seq::new(i as nat, |k: int| 0u8),
        decreases data_len - i,
    {
        out.push(0u8);
        i = i + 1;
    }
    out
}

} // verus!
