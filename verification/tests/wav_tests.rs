use kugou_dsp::offline::SampleCode;
use kugou_dsp::wav::{decode_wav, decode_wav_ints, WavInts};
use std::io::Cursor;

fn wav_bytes(channels: u16, rate: u32, bits: u16, samples: &[i32]) -> Vec<u8> {
    let spec = hound::WavSpec {
        channels,
        sample_rate: rate,
        bits_per_sample: bits,
        sample_format: hound::SampleFormat::Int,
    };
    let mut buf: Vec<u8> = Vec::new();
    {
        let mut w = hound::WavWriter::new(Cursor::new(&mut buf), spec).unwrap();
        for &s in samples {
            w.write_sample(s).unwrap();
        }
        w.finalize().unwrap();
    }
    buf
}

fn scaled(value: i32, full_scale: u32) -> SampleCode {
    SampleCode::Scaled { value, full_scale }
}

#[test]
fn wav_16_bit_stereo_is_decoded() {
    let bytes = wav_bytes(2, 44100, 16, &[0, 1, -1, 32767, -32768, 5]);
    let w = decode_wav("in.wav", &bytes).unwrap();
    assert_eq!((w.channels, w.sample_rate), (2, 44100));
    assert_eq!(
        w.codes,
        vec![
            scaled(0, 32768),
            scaled(1, 32768),
            scaled(-1, 32768),
            scaled(32767, 32768),
            scaled(-32768, 32768),
            scaled(5, 32768)
        ]
    );
}

#[test]
fn wav_24_and_8_bit_are_decoded() {
    let w = decode_wav("a.wav", &wav_bytes(1, 48000, 24, &[-8388608, 8388607, -2])).unwrap();
    assert_eq!(w.codes, vec![scaled(-8388608, 8388608), scaled(8388607, 8388608), scaled(-2, 8388608)]);
    // hound hands 8-bit samples back signed; the reader reads their low byte
    // as offset binary.
    let w = decode_wav("b.wav", &wav_bytes(1, 8000, 8, &[0, 127, -128])).unwrap();
    assert_eq!(w.codes, vec![scaled(-128, 128), scaled(-1, 128), scaled(0, 128)]);
}

#[test]
fn wav_without_samples_is_empty() {
    let w = decode_wav("e.wav", &wav_bytes(2, 22050, 16, &[])).unwrap();
    assert_eq!((w.channels, w.sample_rate, w.codes.len()), (2, 22050, 0));
}

#[test]
fn wav_header_error_names_the_file() {
    let e = decode_wav("x.wav", b"not a wave file").err().unwrap();
    assert!(e.starts_with("打开 x.wav: "), "{e}");
    assert!(e.len() > "打开 x.wav: ".len());
}

#[test]
fn wav_truncated_data_is_a_read_error() {
    let mut bytes = wav_bytes(2, 44100, 16, &[1, 2, 3, 4]);
    bytes.truncate(bytes.len() - 3);
    let e = decode_wav("t.wav", &bytes).err().unwrap();
    assert!(e.starts_with("读取样本: "), "{e}");
}

#[test]
fn wav_outcome_orders_errors_like_the_reader() {
    let ints = |bits: u16, first: Option<Result<i32, String>>, rest: Result<Vec<i32>, String>| {
        Ok(WavInts { channels: 2, sample_rate: 44100, bits_per_sample: bits, first, rest })
    };
    // an unsupported depth is reported at the first sample read...
    assert_eq!(
        decode_wav_ints("p", ints(12, Some(Ok(1)), Err("late".into()))).err(),
        Some("不支持的位深 12".to_string())
    );
    // ...unless the first sample cannot be read
    assert_eq!(
        decode_wav_ints("p", ints(12, Some(Err("bad".into())), Ok(vec![]))).err(),
        Some("读取样本: bad".to_string())
    );
    // no sample: no depth check
    assert!(decode_wav_ints("p", ints(12, None, Ok(vec![]))).is_ok());
    assert_eq!(
        decode_wav_ints("p", ints(16, Some(Ok(1)), Err("eof".into()))).err(),
        Some("读取样本: eof".to_string())
    );
    assert_eq!(
        decode_wav_ints("f.wav", Err("Ill-formed WAVE file: no RIFF tag found".into())).err(),
        Some("打开 f.wav: Ill-formed WAVE file: no RIFF tag found".to_string())
    );
    let w = decode_wav_ints("p", ints(32, Some(Ok(0x3F80_0000)), Ok(vec![-1]))).unwrap();
    assert_eq!(w.codes, vec![SampleCode::FloatBits(0x3F80_0000), SampleCode::FloatBits(0xFFFF_FFFF)]);
}
