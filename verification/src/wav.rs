//! Reading a WAV file's bytes into the sample codes that the offline
//! pipeline starts from. The RIFF/WAVE parsing is `hound`'s; this module
//! orders its results the way the tool reports them and reads each
//! integer sample at the file's bit depth.
use vstd::prelude::*;
use crate::offline::{decode_sample, sample_code, unsupported_bits_message, unsupported_bits_text, SampleCode};

verus! {

/// What `hound` reads from a WAV file's bytes as 32-bit integers: the
/// header, the first sample, and the samples after it up to the first read
/// error.
pub struct WavInts {
    /// Interleaved channel count.
    pub channels: u16,
    /// Samples per second.
    pub sample_rate: u32,
    /// Bits per sample.
    pub bits_per_sample: u16,
    /// The first sample or its read error; `None` when there is no sample.
    pub first: Option<Result<i32, String>>,
    /// The samples after the first, or the first read error among them.
    pub rest: Result<Vec<i32>, String>,
}

/// What `hound` reads from the bytes of a WAV file (`WavReader::new` on
/// the bytes, its `spec()`, then its `samples::<i32>()`, the first one and
/// the rest collected up to the first error): the header (channels, sample
/// rate, bits per sample), the first sample, the rest; or the text of the
/// error that stops it at the header.
pub uninterp spec fn wav_parse(bytes: Seq<u8>) -> Result<
    (u16, u32, u16, Option<Result<i32, Seq<char>>>, Result<Seq<i32>, Seq<char>>),
    Seq<char>,
>;

/// A `Result` of a `String` error by its view.
pub open spec fn err_view<T>(r: Result<T, String>) -> Result<T, Seq<char>> {
    match r {
        Ok(v) => Ok(v),
        Err(e) => Err(e@),
    }
}

/// What the wrapper returned, by its view.
pub open spec fn wav_ints_view(r: Result<WavInts, String>) -> Result<
    (u16, u32, u16, Option<Result<i32, Seq<char>>>, Result<Seq<i32>, Seq<char>>),
    Seq<char>,
> {
    match r {
        Ok(w) => Ok(
            (
                w.channels,
                w.sample_rate,
                w.bits_per_sample,
                match w.first {
                    Some(f) => Some(err_view(f)),
                    None => None,
                },
                match w.rest {
                    Ok(v) => Ok(v@),
                    Err(e) => Err(e@),
                },
            ),
        ),
        Err(e) => Err(e@),
    }
}

/// Reads a WAV file's bytes with `hound` (`WavReader::new`, `spec`,
/// `samples::<i32>`); errors become their display text. The result is
/// what `wav_parse` names for the bytes.
#[verifier::external_body]
fn wav_read_ints(bytes: &[u8]) -> (r: Result<WavInts, String>)
    ensures
        wav_ints_view(r) == wav_parse(bytes@),
{
    let mut reader = hound::WavReader::new(bytes).map_err(|e| e.to_string())?;
    let spec = reader.spec();
    let mut samples = reader.samples::<i32>();
    let first = samples.next().map(|s| s.map_err(|e| e.to_string()));
    let rest = samples.collect::<Result<Vec<i32>, hound::Error>>().map_err(|e| e.to_string());
    Ok(WavInts {
        channels: spec.channels,
        sample_rate: spec.sample_rate,
        bits_per_sample: spec.bits_per_sample,
        first,
        rest,
    })
}

/// A decoded WAV file: its header and one code per interleaved sample.
pub struct DecodedWav {
    /// Interleaved channel count.
    pub channels: u16,
    /// Samples per second.
    pub sample_rate: u32,
    /// The samples, read at the file's bit depth.
    pub codes: Vec<SampleCode>,
}

/// The code of each sample at bit depth `bits` (a supported one).
pub open spec fn codes_of(bits: u16, vs: Seq<i32>) -> Seq<SampleCode> {
    vs.map_values(
        |v: i32|
            match sample_code(bits, v) {
                Some(c) => c,
                None => SampleCode::FloatBits(0),
            },
    )
}

/// The outcome of reading the WAV file at `path` from what `hound` read:
/// a header error is reported with the path; then, sample by sample, a
/// read error, or at the first sample read an unsupported bit depth.
pub open spec fn wav_outcome(
    path: Seq<char>,
    parsed: Result<
        (u16, u32, u16, Option<Result<i32, Seq<char>>>, Result<Seq<i32>, Seq<char>>),
        Seq<char>,
    >,
) -> Result<(u16, u32, Seq<SampleCode>), Seq<char>> {
    match parsed {
        Err(e) => Err("打开 "@ + path + ": "@ + e),
        Ok((channels, rate, bits, first, rest)) => match first {
            None => Ok((channels, rate, Seq::empty())),
            Some(Err(e)) => Err("读取样本: "@ + e),
            Some(Ok(v0)) => if sample_code(bits, v0) is None {
                Err(unsupported_bits_text(bits))
            } else {
                match rest {
                    Err(e) => Err("读取样本: "@ + e),
                    Ok(vs) => Ok((channels, rate, codes_of(bits, seq![v0] + vs))),
                }
            },
        },
    }
}

/// A decoded file by its view.
pub open spec fn decoded_view(r: Result<DecodedWav, String>) -> Result<
    (u16, u32, Seq<SampleCode>),
    Seq<char>,
> {
    match r {
        Ok(d) => Ok((d.channels, d.sample_rate, d.codes@)),
        Err(e) => Err(e@),
    }
}

fn prefixed(prefix: &str, e: &String) -> (r: String)
    ensures
        r@ == prefix@ + e@,
{
    let mut s = String::from_str(prefix);
    s.append(e.as_str());
    s
}

/// Turns what `hound` read from the WAV file at `path` into the file's
/// header and sample codes, or the error the tool reports.
pub fn decode_wav_ints(path: &str, read: Result<WavInts, String>) -> (r: Result<DecodedWav, String>)
    ensures
        decoded_view(r) == wav_outcome(path@, wav_ints_view(read)),
{
    let w = match read {
        Ok(w) => w,
        Err(e) => {
            let mut s = String::from_str("打开 ");
            s.append(path);
            s.append(": ");
            s.append(e.as_str());
            return Err(s);
        },
    };
    let bits = w.bits_per_sample;
    let v0 = match &w.first {
        None => {
            let r = DecodedWav { channels: w.channels, sample_rate: w.sample_rate, codes: Vec::new() };
            assert(r.codes@ =~= Seq::<SampleCode>::empty());
            return Ok(r);
        },
        Some(Err(e)) => {
            return Err(prefixed("读取样本: ", e));
        },
        Some(Ok(v)) => *v,
    };
    let c0 = match decode_sample(bits, v0) {
        Ok(c) => c,
        Err(b) => {
            return Err(unsupported_bits_message(b));
        },
    };
    let vs = match &w.rest {
        Err(e) => {
            return Err(prefixed("读取样本: ", e));
        },
        Ok(vs) => vs,
    };
    let ghost all = seq![v0] + vs@;
    let mut codes: Vec<SampleCode> = Vec::new();
    codes.push(c0);
    let mut i: usize = 0;
    assert(codes@ =~= codes_of(bits, all.take(1)));
    while i < vs.len()
        invariant
            i <= vs@.len(),
            all == seq![v0] + vs@,
            sample_code(bits, v0) is Some,
            codes@ == codes_of(bits, all.take(i + 1)),
        decreases vs@.len() - i,
    {
        let c = match decode_sample(bits, vs[i]) {
            Ok(c) => c,
            Err(_) => c0,
        };
        codes.push(c);
        i = i + 1;
        assert(codes@ =~= codes_of(bits, all.take(i + 1)));
    }
    assert(all.take(i + 1) =~= all);
    Ok(DecodedWav { channels: w.channels, sample_rate: w.sample_rate, codes })
}

/// Reads the bytes of the WAV file at `path`: its header and sample codes,
/// or the error the tool reports.
pub fn decode_wav(path: &str, bytes: &[u8]) -> (r: Result<DecodedWav, String>)
    ensures
        decoded_view(r) == wav_outcome(path@, wav_parse(bytes@)),
{
    let read = wav_read_ints(bytes);
    decode_wav_ints(path, read)
}

} // verus!
