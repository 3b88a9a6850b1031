use kugou_dsp::ffi::{
    chain_error_message, dll_missing_message, last_error_msg, load_failure_message,
    symbol_missing_message, APO_LOAD_PRESET,
};

#[test]
fn last_error_msg_formats_hex() {
    assert_eq!(last_error_msg(0x7e), "Win32 错误码 0x7e");
    assert_eq!(last_error_msg(0), "Win32 错误码 0x0");
    assert_eq!(last_error_msg(193), format!("Win32 错误码 {:#x}", 193));
}

#[test]
fn binding_messages() {
    assert_eq!(chain_error_message(3), "LoadPreset(3) 后 GetExternalDSPSet 无效");
    assert_eq!(chain_error_message(-1), "LoadPreset(-1) 后 GetExternalDSPSet 无效");
    assert_eq!(
        symbol_missing_message(APO_LOAD_PRESET),
        "符号未找到: ?LoadPreset@AudioPostProcessWrapper@@QAEXH@Z"
    );
    assert_eq!(load_failure_message(126, "C:\\d\\dsp.dll"), "LoadLibraryExW 失败: Win32 错误码 0x7e (C:\\d\\dsp.dll)");
    assert_eq!(dll_missing_message("C:\\d\\dsp.dll"), "找不到 C:\\d\\dsp.dll");
}
