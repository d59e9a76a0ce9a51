//! Audio: choosing the input device and stream format, reading the microphone
//! permission, and framing 16-bit PCM samples as a WAV file.
use vstd::prelude::*;
use vstd::string::*;

verus! {

/// The sample rate that audio is recorded and encoded at.
pub const SAMPLE_RATE: u32 = 16_000;

/// Audio is recorded and encoded in mono.
pub const CHANNELS: u16 = 1;

/// Encoded samples are 16-bit signed integers.
pub const BITS_PER_SAMPLE: u16 = 16;

// ── WAV framing ──────────────────────────────────────────────────────────────
/// `v` as two little-endian bytes.
pub open spec fn le16(v: u16) -> Seq<u8> {
    seq![(v % 256) as u8, (v / 256) as u8]
}

/// `v` as four little-endian bytes.
pub open spec fn le32(v: u32) -> Seq<u8> {
    seq![(v % 256) as u8, ((v / 256) % 256) as u8, ((v / 65536) % 256) as u8, (v / 16777216) as u8]
}

/// The ASCII bytes of a four-character chunk tag.
pub open spec fn tag(a: char, b: char, c: char, d: char) -> Seq<u8> {
    seq![a as u8, b as u8, c as u8, d as u8]
}

/// The 44-byte header of a mono 16 kHz 16-bit PCM WAV file whose data chunk holds
/// `data_len` bytes: the RIFF header, a 16-byte `fmt ` chunk and the `data` chunk header.
pub open spec fn wav_header(data_len: u32) -> Seq<u8> {
    tag('R', 'I', 'F', 'F') + le32((data_len + 36) as u32) + tag('W', 'A', 'V', 'E') + tag(
        'f',
        'm',
        't',
        ' ',
    ) + le32(16) + le16(1) + le16(CHANNELS) + le32(SAMPLE_RATE) + le32(
        (SAMPLE_RATE * 2) as u32,
    ) + le16(2) + le16(BITS_PER_SAMPLE) + tag('d', 'a', 't', 'a') + le32(data_len)
}

/// The samples as consecutive little-endian 16-bit two's-complement values.
pub open spec fn pcm_bytes(samples: Seq<i16>) -> Seq<u8>
    decreases samples.len(),
{
    if samples.len() == 0 {
        seq![]
    } else {
        pcm_bytes(samples.drop_last()) + le16(samples.last() as u16)
    }
}

/// The WAV file of `samples`: the header, then the samples.
pub open spec fn wav_file(samples: Seq<i16>) -> Seq<u8> {
    wav_header((2 * samples.len()) as u32) + pcm_bytes(samples)
}

/// The most samples whose file sizes fit the 32-bit fields of the header.
pub open spec fn max_wav_samples() -> int {
    (u32::MAX - 36) / 2
}

fn push_le16(v: &mut Vec<u8>, x: u16)
    ensures
        final(v)@ == old(v)@ + le16(x),
{
    v.push((x % 256) as u8);
    v.push((x / 256) as u8);
    assert(final(v)@ =~= old(v)@ + le16(x));
}

fn push_le32(v: &mut Vec<u8>, x: u32)
    ensures
        final(v)@ == old(v)@ + le32(x),
{
    v.push((x % 256) as u8);
    v.push(((x / 256) % 256) as u8);
    v.push(((x / 65536) % 256) as u8);
    v.push((x / 16777216) as u8);
    assert(final(v)@ =~= old(v)@ + le32(x));
}

fn push_tag(v: &mut Vec<u8>, a: char, b: char, c: char, d: char)
    requires
        (a as u32) < 128,
        (b as u32) < 128,
        (c as u32) < 128,
        (d as u32) < 128,
    ensures
        final(v)@ == old(v)@ + tag(a, b, c, d),
{
    v.push(a as u8);
    v.push(b as u8);
    v.push(c as u8);
    v.push(d as u8);
    assert(final(v)@ =~= old(v)@ + tag(a, b, c, d));
}

/// Encodes 16-bit PCM samples as a mono 16 kHz WAV file.
pub fn encode_wav(samples: &[i16]) -> (bytes: Vec<u8>)
    requires
        samples@.len() <= max_wav_samples(),
    ensures
        bytes@ == wav_file(samples@),
{
    let n = samples.len();
    let data_len = (2 * n) as u32;
    let mut v: Vec<u8> = Vec::new();
    push_tag(&mut v, 'R', 'I', 'F', 'F');
    push_le32(&mut v, data_len + 36);
    push_tag(&mut v, 'W', 'A', 'V', 'E');
    push_tag(&mut v, 'f', 'm', 't', ' ');
    push_le32(&mut v, 16);
    push_le16(&mut v, 1);
    push_le16(&mut v, CHANNELS);
    push_le32(&mut v, SAMPLE_RATE);
    push_le32(&mut v, SAMPLE_RATE * 2);
    push_le16(&mut v, 2);
    push_le16(&mut v, BITS_PER_SAMPLE);
    push_tag(&mut v, 'd', 'a', 't', 'a');
    push_le32(&mut v, data_len);
    assert(v@ =~= wav_header(data_len));
    let mut i: usize = 0;
    while i < n
        invariant
            n == samples@.len(),
            i <= n,
            v@ == wav_header(data_len) + pcm_bytes(samples@.take(i as int)),
        decreases n - i,
    {
        assert(samples@.take(i + 1).drop_last() =~= samples@.take(i as int));
        push_le16(&mut v, samples[i] as u16);
        i = i + 1;
    }
    assert(samples@.take(n as int) =~= samples@);
    v
}

/// A WAV file of `n` samples is 44 header bytes and two bytes per sample; it starts
/// with "RIFF", names its form "WAVE" at byte 8, and its data chunk holds the samples.
pub proof fn lemma_wav_layout(samples: Seq<i16>)
    requires
        samples.len() <= max_wav_samples(),
    ensures
        wav_file(samples).len() == 44 + 2 * samples.len(),
        wav_file(samples).subrange(0, 4) == tag('R', 'I', 'F', 'F'),
        wav_file(samples).subrange(8, 12) == tag('W', 'A', 'V', 'E'),
        wav_file(samples).subrange(44, wav_file(samples).len() as int) == pcm_bytes(samples),
{
    lemma_pcm_len(samples);
    let h = wav_header((2 * samples.len()) as u32);
    assert(h.len() == 44);
    let w = wav_file(samples);
    assert(w.subrange(0, 4) =~= tag('R', 'I', 'F', 'F'));
    assert(w.subrange(8, 12) =~= tag('W', 'A', 'V', 'E'));
    assert(w.subrange(44, w.len() as int) =~= pcm_bytes(samples));
}

/// The little-endian 16-bit number in bytes `i` and `i + 1` of `b`.
pub open spec fn read_le16(b: Seq<u8>, i: int) -> int {
    b[i] + 256 * b[i + 1]
}

/// The little-endian 32-bit number in bytes `i` to `i + 3` of `b`.
pub open spec fn read_le32(b: Seq<u8>, i: int) -> int {
    b[i] + 256 * b[i + 1] + 65536 * b[i + 2] + 16777216 * b[i + 3]
}

proof fn lemma_le16_reads_back(x: u16)
    ensures
        read_le16(le16(x), 0) == x,
{
    assert(x == (x % 256) + 256 * (x / 256)) by (nonlinear_arith);
}

proof fn lemma_le32_reads_back(x: u32)
    ensures
        read_le32(le32(x), 0) == x,
{
    assert(x == (x % 256) + 256 * ((x / 256) % 256) + 65536 * ((x / 65536) % 256) + 16777216 * (x
        / 16777216)) by (nonlinear_arith);
}

/// The header of a WAV file tells the true sizes and the format: read as
/// little-endian numbers, bytes 4..8 give the size of what follows them (36 plus
/// two bytes per sample), bytes 40..44 the size of the data (two bytes per
/// sample), and the `fmt ` chunk says uncompressed PCM, one channel, 16000 samples
/// a second, 32000 bytes a second, two bytes a frame and 16 bits a sample.
pub proof fn lemma_wav_header_fields(samples: Seq<i16>)
    requires
        samples.len() <= max_wav_samples(),
    ensures
        ({
            let w = wav_file(samples);
            &&& w.len() == 44 + 2 * samples.len()
            &&& read_le32(w, 4) == 36 + 2 * samples.len()
            &&& read_le32(w, 16) == 16
            &&& read_le16(w, 20) == 1
            &&& read_le16(w, 22) == 1
            &&& read_le32(w, 24) == 16000
            &&& read_le32(w, 28) == 32000
            &&& read_le16(w, 32) == 2
            &&& read_le16(w, 34) == 16
            &&& read_le32(w, 40) == 2 * samples.len()
        }),
{
    lemma_pcm_len(samples);
    let n: u32 = (2 * samples.len()) as u32;
    let w = wav_file(samples);
    let h = wav_header(n);
    assert(w.subrange(0, 44) =~= h);
    lemma_le32_reads_back((n + 36) as u32);
    lemma_le32_reads_back(16);
    lemma_le16_reads_back(1);
    lemma_le32_reads_back(16000);
    lemma_le32_reads_back(32000);
    lemma_le16_reads_back(2);
    lemma_le16_reads_back(16);
    lemma_le32_reads_back(n);
    assert(h.subrange(4, 8) =~= le32((n + 36) as u32));
    assert(h.subrange(16, 20) =~= le32(16));
    assert(h.subrange(20, 22) =~= le16(1));
    assert(h.subrange(22, 24) =~= le16(1));
    assert(h.subrange(24, 28) =~= le32(16000));
    assert(h.subrange(28, 32) =~= le32(32000));
    assert(h.subrange(32, 34) =~= le16(2));
    assert(h.subrange(34, 36) =~= le16(16));
    assert(h.subrange(40, 44) =~= le32(n));
}

/// Sample `k` takes bytes `2 * k` and `2 * k + 1` of the PCM bytes, low byte first.
proof fn lemma_pcm_sample(samples: Seq<i16>, k: int)
    requires
        0 <= k < samples.len(),
    ensures
        pcm_bytes(samples).len() == 2 * samples.len(),
        pcm_bytes(samples).subrange(2 * k, 2 * k + 2) == le16(samples[k] as u16),
    decreases samples.len(),
{
    lemma_pcm_len(samples);
    let init = samples.drop_last();
    lemma_pcm_len(init);
    if k < samples.len() - 1 {
        lemma_pcm_sample(init, k);
        assert(pcm_bytes(samples).subrange(2 * k, 2 * k + 2) =~= pcm_bytes(init).subrange(
            2 * k,
            2 * k + 2,
        ));
    } else {
        assert(pcm_bytes(samples).subrange(2 * k, 2 * k + 2) =~= le16(samples.last() as u16));
    }
}

/// After the 44-byte header, each sample is stored in order as its 16-bit two's
/// complement, low byte first: bytes `44 + 2 * k` and `45 + 2 * k` read back as
/// sample `k`.
pub proof fn lemma_wav_samples_in_order(samples: Seq<i16>, k: int)
    requires
        samples.len() <= max_wav_samples(),
        0 <= k < samples.len(),
    ensures
        read_le16(wav_file(samples), 44 + 2 * k) == samples[k] as u16,
{
    lemma_pcm_sample(samples, k);
    let n: u32 = (2 * samples.len()) as u32;
    let w = wav_file(samples);
    assert(wav_header(n).len() == 44);
    assert(w.subrange(44 + 2 * k, 46 + 2 * k) =~= pcm_bytes(samples).subrange(2 * k, 2 * k + 2));
    lemma_le16_reads_back(samples[k] as u16);
}

/// Each sample takes two bytes.
pub proof fn lemma_pcm_len(samples: Seq<i16>)
    ensures
        pcm_bytes(samples).len() == 2 * samples.len(),
    decreases samples.len(),
{
    if samples.len() > 0 {
        lemma_pcm_len(samples.drop_last());
    }
}

// ── Device and format selection ──────────────────────────────────────────────
/// One range of input stream formats that a device supports.
#[derive(Clone, Copy, PartialEq, Eq, Debug)]
pub struct InputConfigRange {
    pub channels: u16,
    /// Whether the samples are 32-bit floats.
    pub is_f32: bool,
    pub min_sample_rate: u32,
    pub max_sample_rate: u32,
}

/// Whether a range can record mono 32-bit float samples at `SAMPLE_RATE`.
pub open spec fn range_fits(r: InputConfigRange) -> bool {
    r.channels == CHANNELS && r.is_f32 && r.min_sample_rate <= SAMPLE_RATE <= r.max_sample_rate
}

/// Which stream format to record with.
#[derive(Clone, Copy, PartialEq, Eq, Debug)]
pub enum ConfigChoice {
    /// Mono 32-bit float at `SAMPLE_RATE`.
    Preferred,
    /// The device's default format, at the device's default rate.
    DeviceDefault,
}

/// The preferred format where some range supports it, else the device default.
pub fn find_config(ranges: &[InputConfigRange]) -> (c: ConfigChoice)
    ensures
        c == ConfigChoice::Preferred <==> exists|i: int|
            0 <= i < ranges@.len() && range_fits(#[trigger] ranges@[i]),
{
    let mut i: usize = 0;
    while i < ranges.len()
        invariant
            i <= ranges@.len(),
            forall|j: int| 0 <= j < i ==> !range_fits(#[trigger] ranges@[j]),
        decreases ranges@.len() - i,
    {
        let r = ranges[i];
        if r.channels == CHANNELS && r.is_f32 && r.min_sample_rate <= SAMPLE_RATE
            && r.max_sample_rate >= SAMPLE_RATE {
            return ConfigChoice::Preferred;
        }
        i = i + 1;
    }
    ConfigChoice::DeviceDefault
}

/// Which input device to record from.
#[derive(Clone, Copy, PartialEq, Eq, Debug)]
pub enum DeviceChoice {
    /// The device at this position in the list of input devices.
    Listed(usize),
    /// The system's default input device.
    SystemDefault,
}

pub open spec fn device_not_found_text(name: Seq<char>) -> Seq<char> {
    "Audio device '"@ + name + "' not found"@
}

pub open spec fn no_default_device_text() -> Seq<char> {
    "No default input device available"@
}

/// The message shown where no default input device is available.
pub fn no_default_device_message() -> (r: String)
    ensures
        r@ == no_default_device_text(),
{
    String::from_str("No default input device available")
}

/// The input device to record from. `names` are the names of the input devices,
/// in order, `None` where a name could not be read. With a `wanted` name, the
/// first device of that name; without, the system default.
pub fn find_device(wanted: &Option<String>, names: &Vec<Option<String>>) -> (r: Result<
    DeviceChoice,
    String,
>)
    ensures
        wanted is None ==> r == Ok::<DeviceChoice, String>(DeviceChoice::SystemDefault),
        wanted matches Some(w) ==> match r {
            Ok(DeviceChoice::Listed(i)) => {
                &&& i < names@.len()
                &&& names@[i as int] matches Some(n) && n@ == w@
                &&& forall|j: int|
                    0 <= j < i ==> !(#[trigger] names@[j] matches Some(n) && n@ == w@)
            },
            Ok(DeviceChoice::SystemDefault) => false,
            Err(m) => {
                &&& m@ == device_not_found_text(w@)
                &&& forall|j: int|
                    0 <= j < names@.len() ==> !(#[trigger] names@[j] matches Some(n) && n@ == w@)
            },
        },
{
    match wanted {
        None => Ok(DeviceChoice::SystemDefault),
        Some(w) => {
            let mut i: usize = 0;
            while i < names.len()
                invariant
                    *wanted == Some(*w),
                    i <= names@.len(),
                    forall|j: int|
                        0 <= j < i ==> !(#[trigger] names@[j] matches Some(n) && n@ == w@),
                decreases names@.len() - i,
            {
                match &names[i] {
                    Some(n) => {
                        if crate::text::str_eq(n.as_str(), w.as_str()) {
                            return Ok(DeviceChoice::Listed(i));
                        }
                    },
                    None => {},
                }
                i = i + 1;
            }
            let mut m = String::from_str("Audio device '");
            m.append(w.as_str());
            m.append("' not found");
            Err(m)
        },
    }
}

// ── Microphone permission ────────────────────────────────────────────────────
/// The microphone permission from an `AVAuthorizationStatus`: granted,
/// refused (restricted or denied), or not yet asked.
pub open spec fn permission_from_status(status: i64) -> Option<bool> {
    if status == 3 {
        Some(true)
    } else if status == 1 || status == 2 {
        Some(false)
    } else {
        None
    }
}

/// The microphone permission from an `AVAuthorizationStatus`, `None` where no
/// status could be read.
pub fn check_microphone_permission(status: Option<i64>) -> (r: Option<bool>)
    ensures
        r == match status {
            Some(s) => permission_from_status(s),
            None => None,
        },
{
    match status {
        Some(3) => Some(true),
        Some(1) | Some(2) => Some(false),
        _ => None,
    }
}

} // verus!
