//! Microphone access outside macOS, the hint shown when no microphone is
//! found, and the 16-bit PCM wav format of recordings.
use vstd::prelude::*;
use vstd::string::*;

verus! {

/// The hint when no default microphone exists.
pub fn mic_permission_hint() -> (r: String)
    ensures
        r@ == "未找到默认麦克风。\n  macOS 请在「系统设置 → 隐私与安全性 → 麦克风」中授权当前终端 App，然后重试。\n  可用 `kws list-devices` 查看设备，`kws run --device <名称>` 指定设备。"@,
{
    crate::text::owned(
        "未找到默认麦克风。\n  macOS 请在「系统设置 → 隐私与安全性 → 麦克风」中授权当前终端 App，然后重试。\n  可用 `kws list-devices` 查看设备，`kws run --device <名称>` 指定设备。",
    )
}

/// Platforms other than macOS have no system-level microphone permission:
/// access counts as granted.
pub fn request_mic_permission() -> (r: Result<bool, String>)
    ensures
        r == Ok::<bool, String>(true),
{
    Ok(true)
}

/// `v` as two little-endian bytes.
pub open spec fn le16(v: int) -> Seq<u8> {
    seq![(v % 256) as u8, ((v / 256) % 256) as u8]
}

/// `v` as four little-endian bytes.
pub open spec fn le32(v: int) -> Seq<u8> {
    seq![(v % 256) as u8, ((v / 256) % 256) as u8, ((v / 65536) % 256) as u8, ((v / 16777216) % 256) as u8]
}

/// A sample as its two's-complement little-endian bytes.
pub open spec fn sample_le(s: i16) -> Seq<u8> {
    le16(if s < 0 { s + 65536 } else { s as int })
}

/// The samples as consecutive little-endian 16-bit words.
pub open spec fn pcm_bytes(samples: Seq<i16>) -> Seq<u8>
    decreases samples.len(),
{
    if samples.len() == 0 {
        Seq::empty()
    } else {
        pcm_bytes(samples.drop_last()) + sample_le(samples.last())
    }
}

/// ASCII tags of the RIFF/WAVE header.
pub open spec fn tag(a: u8, b: u8, c: u8, d: u8) -> Seq<u8> {
    seq![a, b, c, d]
}

/// A mono 16-bit PCM wav file: RIFF header, `fmt ` chunk (PCM, one channel,
/// the rate, byte rate `2 × rate`, block align 2, 16 bits), `data` chunk.
pub open spec fn wav_file(rate: u32, samples: Seq<i16>) -> Seq<u8> {
    let data_len = 2 * samples.len();
    tag(0x52, 0x49, 0x46, 0x46) + le32((36 + data_len) as int) + tag(0x57, 0x41, 0x56, 0x45) + tag(
        0x66,
        0x6d,
        0x74,
        0x20,
    ) + le32(16) + le16(1) + le16(1) + le32(rate as int) + le32(2 * rate) + le16(2) + le16(16)
        + tag(0x64, 0x61, 0x74, 0x61) + le32(data_len as int) + pcm_bytes(samples)
}

fn push_le16(buf: &mut Vec<u8>, v: u32)
    requires
        v < 65536,
    ensures
        final(buf)@ == old(buf)@ + le16(v as int),
{
    buf.push((v % 256) as u8);
    buf.push(((v / 256) % 256) as u8);
    assert(final(buf)@ =~= old(buf)@ + le16(v as int));
}

fn push_le32(buf: &mut Vec<u8>, v: u32)
    ensures
        final(buf)@ == old(buf)@ + le32(v as int),
{
    buf.push((v % 256) as u8);
    buf.push(((v / 256) % 256) as u8);
    buf.push(((v / 65536) % 256) as u8);
    buf.push(((v / 16777216) % 256) as u8);
    assert(final(buf)@ =~= old(buf)@ + le32(v as int));
}

fn push_tag(buf: &mut Vec<u8>, a: u8, b: u8, c: u8, d: u8)
    ensures
        final(buf)@ == old(buf)@ + tag(a, b, c, d),
{
    buf.push(a);
    buf.push(b);
    buf.push(c);
    buf.push(d);
    assert(final(buf)@ =~= old(buf)@ + tag(a, b, c, d));
}

/// The bytes of a mono 16-bit PCM wav file of the samples (the recording
/// format). The sizes must fit the format's 32-bit fields.
pub fn wav_bytes(sample_rate: u32, samples: &Vec<i16>) -> (r: Vec<u8>)
    requires
        2 * samples@.len() + 36 <= u32::MAX,
        2 * sample_rate <= u32::MAX,
    ensures
        r@ == wav_file(sample_rate, samples@),
{
    let data_len: u32 = (samples.len() as u32) * 2;
    let mut buf: Vec<u8> = Vec::new();
    push_tag(&mut buf, 0x52, 0x49, 0x46, 0x46);
    push_le32(&mut buf, 36 + data_len);
    push_tag(&mut buf, 0x57, 0x41, 0x56, 0x45);
    push_tag(&mut buf, 0x66, 0x6d, 0x74, 0x20);
    push_le32(&mut buf, 16);
    push_le16(&mut buf, 1);
    push_le16(&mut buf, 1);
    push_le32(&mut buf, sample_rate);
    push_le32(&mut buf, sample_rate * 2);
    push_le16(&mut buf, 2);
    push_le16(&mut buf, 16);
    push_tag(&mut buf, 0x64, 0x61, 0x74, 0x61);
    push_le32(&mut buf, data_len);
    let ghost header = buf@;
    let mut k: usize = 0;
    assert(samples@.take(0) =~= Seq::<i16>::empty());
    assert(buf@ =~= header + pcm_bytes(samples@.take(0)));
    while k < samples.len()
        invariant
            0 <= k <= samples@.len(),
            buf@ == header + pcm_bytes(samples@.take(k as int)),
        decreases samples@.len() - k,
    {
        let s = samples[k];
        let u: u32 = if s < 0 {
            (s as i32 + 65536) as u32
        } else {
            s as u32
        };
        let ghost before = buf@;
        push_le16(&mut buf, u);
        proof {
            let t = samples@.take(k + 1);
            assert(t.drop_last() =~= samples@.take(k as int));
            assert(t.last() == s);
            assert(buf@ =~= header + pcm_bytes(t));
        }
        k = k + 1;
    }
    assert(samples@.take(samples@.len() as int) =~= samples@);
    assert(buf@ =~= wav_file(sample_rate, samples@));
    buf
}

proof fn lemma_pcm_len(samples: Seq<i16>)
    ensures
        pcm_bytes(samples).len() == 2 * samples.len(),
    decreases samples.len(),
{
    if samples.len() > 0 {
        lemma_pcm_len(samples.drop_last());
    }
}

/// A wav file is its 44-byte header and two bytes per sample; the RIFF size
/// field counts everything after its own eight bytes.
pub proof fn lemma_wav_sizes(rate: u32, samples: Seq<i16>)
    ensures
        wav_file(rate, samples).len() == 44 + 2 * samples.len(),
        wav_file(rate, samples).subrange(4, 8) == le32(wav_file(rate, samples).len() - 8),
{
    lemma_pcm_len(samples);
    let w = wav_file(rate, samples);
    assert(w.subrange(4, 8) =~= le32((36 + 2 * samples.len()) as int));
}

} // verus!
