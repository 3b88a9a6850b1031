use kugou_dsp::cli::{
    bad_preset_message, cli_error_message, frame_count, parse_wav_options, select_command,
    split_dll_dir, usage_text, CliError, Command,
};

fn args(v: &[&str]) -> Vec<String> {
    v.iter().map(|s| s.to_string()).collect()
}

#[test]
fn dll_dir_is_taken_out_and_last_wins() {
    let inv = split_dll_dir(&args(&["wav", "--dll-dir", "A", "in.wav", "--dll-dir", "B", "out.wav"]));
    assert_eq!(inv.dll_dir.as_deref(), Some("B"));
    assert_eq!(inv.positional, args(&["wav", "in.wav", "out.wav"]));
}

#[test]
fn trailing_dll_dir_stays_positional() {
    let inv = split_dll_dir(&args(&["info", "--dll-dir"]));
    assert_eq!(inv.dll_dir, None);
    assert_eq!(inv.positional, args(&["info", "--dll-dir"]));
    let empty = split_dll_dir(&args(&[]));
    assert!(empty.dll_dir.is_none() && empty.positional.is_empty());
}

#[test]
fn commands_are_selected() {
    assert!(matches!(select_command(&args(&["info"])), Ok(Command::Info)));
    assert!(matches!(select_command(&args(&["wav", "a", "b"])), Ok(Command::Wav)));
    assert!(matches!(select_command(&args(&["wav", "a"])), Err(CliError::WavNeedsPaths)));
    match select_command(&args(&["play"])) {
        Err(CliError::UnknownCommand(c)) => assert_eq!(c, "play"),
        other => panic!("unexpected {:?}", other),
    }
}

#[test]
fn wav_options_are_parsed() {
    let o = parse_wav_options(&args(&["wav", "in.wav", "out.wav", "--preset", "3", "--keep-tail"])).unwrap();
    assert_eq!(o.input, "in.wav");
    assert_eq!(o.output, "out.wav");
    assert_eq!(o.preset, 3);
    assert!(o.keep_tail);
    let o = parse_wav_options(&args(&["wav", "i", "o", "--preset", "9", "--preset", "+2"])).unwrap();
    assert_eq!(o.preset, 2);
    assert!(!o.keep_tail);
}

#[test]
fn wav_option_errors() {
    match parse_wav_options(&args(&["wav", "i", "o", "--preset", "x1"])) {
        Err(CliError::BadPresetValue(v)) => assert_eq!(v, "x1"),
        other => panic!("unexpected {:?}", other),
    }
    match parse_wav_options(&args(&["wav", "i", "o", "--loud"])) {
        Err(CliError::UnknownArg(v)) => assert_eq!(v, "--loud"),
        other => panic!("unexpected {:?}", other),
    }
    match parse_wav_options(&args(&["wav", "i", "o", "--preset"])) {
        Err(CliError::UnknownArg(v)) => assert_eq!(v, "--preset"),
        other => panic!("unexpected {:?}", other),
    }
    assert!(matches!(parse_wav_options(&args(&["wav", "i", "o"])), Err(CliError::MissingPreset)));
    assert!(matches!(
        parse_wav_options(&args(&["wav", "i", "o", "--preset", "7"])),
        Err(CliError::PresetNotAllowed(7))
    ));
    assert!(matches!(
        parse_wav_options(&args(&["wav", "i", "o", "--preset", "-1"])),
        Err(CliError::PresetNotAllowed(-1))
    ));
}

#[test]
fn cli_error_messages() {
    let list = "1=3D丽音  2=超重低音  3=纯净人声  4=HIFI现场";
    assert_eq!(cli_error_message(&CliError::WavNeedsPaths), "wav 需要 <in.wav> <out.wav>");
    assert_eq!(cli_error_message(&CliError::UnknownCommand("x".into())), "未知子命令: x");
    assert_eq!(
        cli_error_message(&CliError::BadPresetValue("a\"b".into())),
        format!("--preset 需要整数 ID，收到 {:?}", "a\"b")
    );
    assert_eq!(bad_preset_message("\"q\""), "--preset 需要整数 ID，收到 \"q\"");
    assert_eq!(cli_error_message(&CliError::UnknownArg("-v".into())), "未知参数 -v");
    assert_eq!(
        cli_error_message(&CliError::MissingPreset),
        format!("缺少 --preset 参数。可用预设: {}", list)
    );
    assert_eq!(
        cli_error_message(&CliError::PresetNotAllowed(-5)),
        format!("预设 -5 不在 CLI 白名单内。可用预设: {}", list)
    );
}

#[test]
fn usage_text_is_exact() {
    let expected = "用法:\n\
         kugou-dsp info [--dll-dir DIR]\n\
         kugou-dsp wav <in.wav> <out.wav> --preset <ID> [--keep-tail] [--dll-dir DIR]\n\
         \n\
         --keep-tail  保留结尾混响拖尾（输出比输入略长；默认与输入等长）\n\
         可用预设 ID: 1=3D丽音  2=超重低音  3=纯净人声  4=HIFI现场";
    assert_eq!(usage_text(), expected);
}

#[test]
fn frame_count_divides_by_channels() {
    assert_eq!(frame_count(1025, 2), 512);
    assert_eq!(frame_count(7, 0), 7);
    assert_eq!(frame_count(0, 2), 0);
}

#[test]
fn listed_presets_are_accepted_by_preset_option() {
    for id in kugou_dsp::presets::CLI_ALLOWED {
        let text = kugou_dsp::text::dec_string(id as i64);
        let o = parse_wav_options(&args(&["wav", "i", "o", "--preset", &text])).unwrap();
        assert_eq!(o.preset, id);
        assert!(!o.keep_tail);
    }
}

#[test]
fn decimal_text_parses_back() {
    for v in [0i32, 1, -1, 42, -512, i32::MAX, i32::MIN] {
        assert_eq!(kugou_dsp::text::parse_i32(&kugou_dsp::text::dec_string(v as i64)), Some(v));
    }
}
