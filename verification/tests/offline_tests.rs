use kugou_dsp::offline::{
    decode_sample, pipeline_error_message, process_args_for, unsupported_bits_message,
    usable_samples_of, OfflinePipeline, PipelineError, ProcessArgs, SampleCode, Stage, Step,
    CHUNK_FRAMES, TAIL_BLOCKS,
};

/// Drives a pipeline with a fake engine; returns the result, the number
/// of blocks of each kind, and the log of setup calls.
fn drive(
    p: &mut OfflinePipeline,
    mut engine: impl FnMut(bool, &mut Vec<i16>, ProcessArgs) -> (bool, u32),
) -> (Result<(), PipelineError>, usize, usize, Vec<String>) {
    let (mut main, mut drain) = (0, 0);
    let mut log = Vec::new();
    loop {
        match p.next_step() {
            Step::ApplyPreset { preset } => {
                log.push(format!("preset {preset}"));
                p.on_setup_done();
            }
            Step::Flush { pts, sample_rate } => {
                log.push(format!("flush {pts} {sample_rate}"));
                p.on_setup_done();
            }
            Step::Process { block, args, .. } => {
                let mut b = block;
                let (ok, written) = engine(false, &mut b, args);
                main += 1;
                if let Err(e) = p.on_processed(ok, written, b) {
                    return (Err(e), main, drain, log);
                }
            }
            Step::Drain { block, args, .. } => {
                let mut b = block;
                let (ok, written) = engine(true, &mut b, args);
                drain += 1;
                p.on_processed(ok, written, b).unwrap();
            }
            Step::Done => return (Ok(()), main, drain, log),
        }
    }
}

fn start(input: Vec<i16>, keep_tail: bool) -> OfflinePipeline {
    match OfflinePipeline::new(input, 2, 44100, 7, keep_tail) {
        Ok(p) => p,
        Err(e) => panic!("stereo input refused: {e:?}"),
    }
}

fn refusal(channels: u16) -> Option<PipelineError> {
    OfflinePipeline::new(vec![0; 8], channels, 44100, 7, false).err()
}

#[test]
fn mono_input_is_refused() {
    assert_eq!(refusal(1), Some(PipelineError::StereoOnly(1)));
    assert_eq!(refusal(0), Some(PipelineError::StereoOnly(1)));
    assert_eq!(refusal(6), Some(PipelineError::StereoOnly(6)));
}

#[test]
fn preset_then_flush_come_before_the_blocks() {
    let mut p = start(vec![1; 2 * 700], false);
    assert_eq!(p.stage, Stage::ApplyPreset);
    let mut calls: Vec<ProcessArgs> = Vec::new();
    let (r, main, drain, log) = drive(&mut p, |_, b, args| {
        calls.push(args);
        (true, (b.len() * 2) as u32)
    });
    assert!(r.is_ok());
    assert_eq!(log, vec!["preset 7".to_string(), "flush 0 44100".to_string()]);
    assert_eq!((main, drain), (2, 0));
    let first = ProcessArgs {
        byte_len: 2048,
        unused3: 0,
        unused5: 0,
        sample_rate: 44100,
        channels: 2,
        bits: 0x10,
        flag: 0,
        p10: 0,
        p11: 0,
    };
    assert_eq!(calls[0], first);
    assert_eq!(calls[1], ProcessArgs { byte_len: 4 * 188, ..first });
    assert_eq!(process_args_for(48000, 10), ProcessArgs { byte_len: 20, sample_rate: 48000, ..first });
}

#[test]
fn identity_engine_keeps_input_and_length() {
    let input: Vec<i16> = (0..2501).map(|k| (k % 300) as i16).collect();
    let mut p = start(input.clone(), false);
    let (r, main, drain, _) = drive(&mut p, |_, b, _| (true, (b.len() * 2) as u32));
    assert!(r.is_ok());
    assert_eq!(main, 3); // 1250 frames in blocks of 512
    assert_eq!(drain, 0);
    assert_eq!(p.out, input[..2500].to_vec());
    assert!(p.tail.is_empty());
}

#[test]
fn warm_up_blocks_are_padded_with_silence() {
    let input: Vec<i16> = vec![5; 2 * 1500];
    let mut p = start(input, false);
    let mut count = 0;
    let (r, _, _, _) = drive(&mut p, |_, b, _| {
        count += 1;
        // first block: nothing written; second: 11 bytes (5 samples -> 4 usable)
        let written = match count {
            1 => 0,
            2 => 11,
            _ => (b.len() * 2) as u32,
        };
        for v in b.iter_mut() {
            *v += 1;
        }
        (true, written)
    });
    assert!(r.is_ok());
    assert_eq!(p.out.len(), 3000);
    assert!(p.out[..1024].iter().all(|&v| v == 0));
    assert_eq!(&p.out[1024..1028], &[6, 6, 6, 6]);
    assert!(p.out[1028..2048].iter().all(|&v| v == 0));
    assert!(p.out[2048..].iter().all(|&v| v == 6));
}

#[test]
fn engine_failure_reports_block_start() {
    let mut p = start(vec![1; 2 * 1100], false);
    let mut count = 0;
    let (r, main, _, _) = drive(&mut p, |_, b, _| {
        count += 1;
        (count < 2, (b.len() * 2) as u32)
    });
    assert_eq!(r, Err(PipelineError::ProcessFailed(512)));
    assert_eq!(main, 2);
    assert_eq!(p.out.len(), 1024);
    assert_eq!(pipeline_error_message(PipelineError::ProcessFailed(512)), "Process 在帧 512 处失败");
    assert_eq!(
        pipeline_error_message(PipelineError::StereoOnly(1)),
        "预设引擎仅支持立体声输入，当前 1 声道（可先将文件转为立体声）"
    );
}

#[test]
fn keep_tail_drains_sixteen_silent_blocks() {
    let mut p = start(vec![3; 2 * 600], true);
    let mut seen: Vec<(usize, bool, usize)> = Vec::new();
    let (r, main, drain, _) = drive(&mut p, |is_drain, b, args| {
        if is_drain {
            seen.push((b.len(), b.iter().all(|&v| v == 0), args.byte_len));
            for v in b.iter_mut() {
                *v += 1;
            }
            (true, 2000) // 1000 samples, whole frames
        } else {
            (true, (b.len() * 2) as u32)
        }
    });
    assert!(r.is_ok());
    assert_eq!(main, 2);
    assert_eq!(drain, TAIL_BLOCKS);
    assert_eq!(p.out.len(), 1200);
    assert_eq!(p.tail.len(), TAIL_BLOCKS);
    assert!(p.tail.iter().all(|t| t.len() == 1000));
    // every drain block is fresh silence, whatever the engine did to the last
    assert_eq!(seen, vec![(1024, true, 2048); 16]);
    assert!(p.tail.iter().all(|t| t.iter().all(|&v| v == 1)));
}

#[test]
fn keep_tail_only_appends_to_the_default_run() {
    let input: Vec<i16> = (0..3000).map(|k| (k % 97) as i16).collect();
    let engine = |_: bool, b: &mut Vec<i16>, _: ProcessArgs| {
        for v in b.iter_mut() {
            *v = v.wrapping_mul(3);
        }
        (true, (b.len() * 2) as u32)
    };
    let mut plain = start(input.clone(), false);
    let mut tailed = start(input, true);
    assert!(drive(&mut plain, engine).0.is_ok());
    assert!(drive(&mut tailed, engine).0.is_ok());
    assert_eq!(plain.out, tailed.out);
    assert!(plain.tail.is_empty());
    assert_eq!(tailed.tail.len(), TAIL_BLOCKS);
    assert!(tailed.tail.iter().all(|t| t.len() == 2 * CHUNK_FRAMES));
}

#[test]
fn drain_stops_at_first_refusal() {
    let mut p = start(vec![], true);
    let mut k = 0;
    let (r, main, drain, _) = drive(&mut p, |_, b, _| {
        k += 1;
        (k < 4, (b.len() * 2) as u32)
    });
    assert!(r.is_ok());
    assert_eq!(main, 0);
    assert_eq!(drain, 4);
    assert_eq!(p.tail.len(), 3);
    assert!(p.out.is_empty());
}

#[test]
fn usable_samples_are_whole_frames_within_block() {
    assert_eq!(usable_samples_of(0, 1024, 2), 0);
    assert_eq!(usable_samples_of(7, 1024, 2), 2);
    assert_eq!(usable_samples_of(4096, 1024, 2), 1024);
    assert_eq!(usable_samples_of(2048, 1024, 2), 1024);
    assert_eq!(CHUNK_FRAMES, 512);
}

#[test]
fn samples_decode_by_bit_depth() {
    assert_eq!(decode_sample(8, 0), Ok(SampleCode::Scaled { value: -128, full_scale: 128 }));
    assert_eq!(decode_sample(8, 255), Ok(SampleCode::Scaled { value: 127, full_scale: 128 }));
    assert_eq!(decode_sample(8, -1), Ok(SampleCode::Scaled { value: 127, full_scale: 128 }));
    assert_eq!(decode_sample(16, -32768), Ok(SampleCode::Scaled { value: -32768, full_scale: 32768 }));
    assert_eq!(decode_sample(16, 0x1_0005), Ok(SampleCode::Scaled { value: 5, full_scale: 32768 }));
    assert_eq!(decode_sample(24, 0x7FFFFF), Ok(SampleCode::Scaled { value: 8388607, full_scale: 8388608 }));
    assert_eq!(decode_sample(24, 0x800000), Ok(SampleCode::Scaled { value: -8388608, full_scale: 8388608 }));
    assert_eq!(decode_sample(24, -1), Ok(SampleCode::Scaled { value: -1, full_scale: 8388608 }));
    assert_eq!(decode_sample(32, 0x3F80_0000), Ok(SampleCode::FloatBits(0x3F80_0000)));
    assert_eq!(f32::from_bits(0x3F80_0000), 1.0f32);
    assert_eq!(decode_sample(12, 3), Err(12));
    assert_eq!(unsupported_bits_message(12), "不支持的位深 12");
}
