//! WAV framing of 16 kHz, mono, 16-bit PCM.
use vstd::prelude::*;

verus! {

/// The four bytes of a number, the lowest first.
pub open spec fn le32(n: u32) -> Seq<u8> {
    seq![
        (n % 256) as u8,
        (n / 256 % 256) as u8,
        (n / 65536 % 256) as u8,
        (n / 16777216 % 256) as u8,
    ]
}

/// The 44 bytes in front of the samples: the sizes of the file and of the data are given.
pub open spec fn wav_header(riff_size: u32, data_size: u32) -> Seq<u8> {
    // "RIFF", size, "WAVE"
    seq![0x52u8, 0x49, 0x46, 0x46] + le32(riff_size) + seq![0x57u8, 0x41, 0x56, 0x45]
    // "fmt ", chunk size 16, PCM, one channel
     + seq![0x66u8, 0x6d, 0x74, 0x20] + le32(16) + seq![1u8, 0, 1, 0]
    // sample rate, byte rate, block align 2, 16 bits per sample
     + le32(16000) + le32(32000) + seq![2u8, 0, 16, 0]
    // "data", size
     + seq![0x64u8, 0x61, 0x74, 0x61] + le32(data_size)
}

fn push4(out: &mut Vec<u8>, a: u8, b: u8, c: u8, d: u8)
    ensures
        final(out)@ == old(out)@ + seq![a, b, c, d],
{
    out.push(a);
    out.push(b);
    out.push(c);
    out.push(d);
    assert(out@ =~= old(out)@ + seq![a, b, c, d]);
}

fn push_le32(out: &mut Vec<u8>, n: u32)
    ensures
        final(out)@ == old(out)@ + le32(n),
{
    push4(
        out,
        (n % 256) as u8,
        (n / 256 % 256) as u8,
        (n / 65536 % 256) as u8,
        (n / 16777216 % 256) as u8,
    );
}

fn header(riff_size: u32, data_size: u32) -> (h: Vec<u8>)
    ensures
        h@ == wav_header(riff_size, data_size),
        h@.len() == 44,
{
    let mut h: Vec<u8> = Vec::new();
    push4(&mut h, 0x52, 0x49, 0x46, 0x46);
    push_le32(&mut h, riff_size);
    push4(&mut h, 0x57, 0x41, 0x56, 0x45);
    push4(&mut h, 0x66, 0x6d, 0x74, 0x20);
    push_le32(&mut h, 16);
    push4(&mut h, 1, 0, 1, 0);
    push_le32(&mut h, 16000);
    push_le32(&mut h, 32000);
    push4(&mut h, 2, 0, 16, 0);
    push4(&mut h, 0x64, 0x61, 0x74, 0x61);
    push_le32(&mut h, data_size);
    assert(h@ =~= wav_header(riff_size, data_size));
    h
}

/// The size that a file with so much data has behind its first eight bytes, as far as 32 bits
/// can hold it.
pub open spec fn riff_size(data_size: u32) -> u32 {
    if data_size + 36 > u32::MAX {
        u32::MAX
    } else {
        (data_size + 36) as u32
    }
}

/// The header of a file with so much data.
pub fn build_wav_header(data_size: u32) -> (h: Vec<u8>)
    ensures
        h@ == wav_header(riff_size(data_size), data_size),
        h@.len() == 44,
{
    header(data_size.saturating_add(36), data_size)
}

/// A WAV file that holds the samples.
pub fn wav_from_pcm(pcm: &[u8]) -> (wav: Vec<u8>)
    requires
        pcm@.len() + 36 <= u32::MAX,
    ensures
        wav@ == wav_header((pcm@.len() + 36) as u32, pcm@.len() as u32) + pcm@,
{
    let data_len: u32 = pcm.len() as u32;
    let mut wav = header(36 + data_len, data_len);
    wav.extend_from_slice(pcm);
    assert(wav@ =~= wav_header((pcm@.len() + 36) as u32, pcm@.len() as u32) + pcm@);
    wav
}

/// The samples in a WAV file: all after the header, where there are any.
pub open spec fn samples_in(wav: Seq<u8>) -> Option<Seq<u8>> {
    if wav.len() > 44 {
        Some(wav.skip(44))
    } else {
        None
    }
}

/// The samples of a WAV file: all behind its header. `None` where there are none.
pub fn pcm_from_wav_bytes(wav: &[u8]) -> (r: Option<Vec<u8>>)
    ensures
        match r {
            Some(pcm) => samples_in(wav@) == Some(pcm@),
            None => samples_in(wav@) is None,
        },
{
    if wav.len() <= 44 {
        return None;
    }
    let pcm = vstd::slice::slice_to_vec(vstd::slice::slice_subrange(wav, 44, wav.len()));
    assert(pcm@ =~= wav@.skip(44));
    Some(pcm)
}

/// How long so many bytes of samples play, in milliseconds: 32 bytes for each.
pub open spec fn duration(pcm_len: int) -> int {
    pcm_len / 32
}

/// How long so many bytes of samples play: 32 bytes per millisecond.
pub fn pcm_duration_ms(pcm_len: usize) -> (ms: u64)
    ensures
        ms == duration(pcm_len as int),
{
    pcm_len as u64 / 32
}

/// The size of the data after more was appended, as far as 32 bits can hold it.
pub fn appended_size(bytes_written: u32, appended: usize) -> (r: u32)
    ensures
        r == if bytes_written + appended > u32::MAX {
            u32::MAX as int
        } else {
            bytes_written + appended
        },
{
    let more: u32 = if appended > 0xffff_ffff {
        0xffff_ffff
    } else {
        appended as u32
    };
    bytes_written.saturating_add(more)
}

/// Reading a WAV file back gives the samples that it was made of.
pub proof fn law_wav_round_trip(pcm: Seq<u8>)
    requires
        pcm.len() > 0,
    ensures
        (wav_header((pcm.len() + 36) as u32, pcm.len() as u32) + pcm).len() > 44,
        (wav_header((pcm.len() + 36) as u32, pcm.len() as u32) + pcm).skip(44) == pcm,
{
    let h = wav_header((pcm.len() + 36) as u32, pcm.len() as u32);
    assert(h.len() == 44);
    assert((h + pcm).skip(44) =~= pcm);
}

/// The archive's header, written again with the final size, stands in the same 44 bytes.
pub proof fn law_header_keeps_its_place(before: u32, after: u32, samples: Seq<u8>)
    ensures
        (wav_header(riff_size(after), after) + samples).skip(44) == (wav_header(
            riff_size(before),
            before,
        ) + samples).skip(44),
{
    assert((wav_header(riff_size(after), after) + samples).skip(44) =~= samples);
    assert((wav_header(riff_size(before), before) + samples).skip(44) =~= samples);
}

/// The number in two bytes, the lower one first.
pub open spec fn field16(bytes: Seq<u8>, at: int) -> int {
    bytes[at] + 256 * bytes[at + 1]
}

/// The number in four bytes, the lowest first.
pub open spec fn field32(bytes: Seq<u8>, at: int) -> int {
    bytes[at] + 256 * bytes[at + 1] + 65536 * bytes[at + 2] + 16777216 * bytes[at + 3]
}

/// The four bytes spell the four characters.
pub open spec fn spells(bytes: Seq<u8>, at: int, a: char, b: char, c: char, d: char) -> bool {
    bytes[at] == a as int && bytes[at + 1] == b as int && bytes[at + 2] == c as int && bytes[at + 3]
        == d as int
}

/// The header describes what stands behind it: a RIFF file of kind WAVE, whose format is PCM with
/// one channel, 16000 samples a second and 16 bits a sample, and whose data is as long as it says.
pub proof fn law_header_describes_the_samples(whole: u32, data: u32)
    ensures
        ({
            let h = wav_header(whole, data);
            let channels = field16(h, 22);
            let rate = field32(h, 24);
            let block = field16(h, 32);
            let bits = field16(h, 34);
            &&& h.len() == 44
            &&& spells(h, 0, 'R', 'I', 'F', 'F')
            &&& field32(h, 4) == whole
            &&& spells(h, 8, 'W', 'A', 'V', 'E')
            &&& spells(h, 12, 'f', 'm', 't', ' ')
            &&& field32(h, 16) == 16
            &&& field16(h, 20) == 1
            &&& channels == 1
            &&& rate == 16000
            &&& bits == 16
            &&& 8 * block == channels * bits
            &&& field32(h, 28) == rate * block
            &&& spells(h, 36, 'd', 'a', 't', 'a')
            &&& field32(h, 40) == data
        }),
{
    lemma_le32(whole);
    lemma_le32(data);
    lemma_le32(16);
    lemma_le32(16000);
    lemma_le32(32000);
}

proof fn lemma_le32(n: u32)
    ensures
        le32(n).len() == 4,
        field32(le32(n), 0) == n,
{
}

/// A file tells how long it is: behind its first eight bytes stand 36 bytes of header and the
/// samples. What 32 bits cannot hold is told as the most that they can.
pub proof fn law_file_tells_its_length(data: u32, pcm: Seq<u8>)
    ensures
        data + 36 <= u32::MAX ==> riff_size(data) == data + 36,
        data + 36 > u32::MAX ==> riff_size(data) == u32::MAX,
        pcm.len() + 36 <= u32::MAX ==> {
            let file = wav_header(riff_size(pcm.len() as u32), pcm.len() as u32) + pcm;
            &&& field32(file, 4) + 8 == file.len()
            &&& field32(file, 40) + 44 == file.len()
        },
{
    if pcm.len() + 36 <= u32::MAX {
        let n = pcm.len() as u32;
        law_header_describes_the_samples(riff_size(n), n);
        let h = wav_header(riff_size(n), n);
        let file = h + pcm;
        assert(forall|i: int| 0 <= i < 44 ==> file[i] == h[i]);
    }
}

/// Samples are 16 bits wide and 16000 a second: so many seconds of them play so many seconds, and a
/// part of a millisecond does not count.
pub proof fn law_samples_play_in_time(seconds: nat, rest: nat)
    requires
        rest < 32,
    ensures
        duration((seconds * 16000 * 2) as int) == seconds * 1000,
        duration((seconds * 16000 * 2 + rest) as int) == seconds * 1000,
        duration((seconds * 16000 * 2 + 32 + rest) as int) == seconds * 1000 + 1,
{
}

/// Whatever the header says, the samples of a file are all the bytes after its 44 bytes; a file
/// that is no longer than a header has none.
pub proof fn law_samples_follow_the_header(header: Seq<u8>, pcm: Seq<u8>, short: Seq<u8>)
    requires
        header.len() == 44,
        short.len() <= 44,
    ensures
        pcm.len() > 0 ==> samples_in(header + pcm) == Some(pcm),
        samples_in(short) is None,
{
    assert((header + pcm).skip(44) =~= pcm);
}

/// The whole of a file is 36 bytes longer than its data, as far as the number can hold it.
pub proof fn law_whole_file_is_longer(data_size: u32)
    ensures
        data_size <= u32::MAX - 36 ==> riff_size(data_size) == data_size + 36,
        data_size > u32::MAX - 36 ==> riff_size(data_size) == u32::MAX,
{
}

} // verus!
