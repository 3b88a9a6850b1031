//! Names and messages of the `dsp.dll` binding. The DLL is loaded at run
//! time and its MSVC-mangled exports are resolved by name; the loading
//! itself happens in the program around this library.
use vstd::prelude::*;
use crate::text::{dec_text, hex_string, hex_text, push_dec_i64};

verus! {

/// `LoadLibraryExW` flag: resolve the DLL's own dependencies from its
/// directory.
pub const LOAD_WITH_ALTERED_SEARCH_PATH: u32 = 0x8;

/// `AudioPostProcessWrapper::AudioPostProcessWrapper(void)`.
pub const APO_WRAPPER_CTOR: &'static str = "??0AudioPostProcessWrapper@@QAE@XZ";

/// `void AudioPostProcessWrapper::LoadPreset(int)`.
pub const APO_LOAD_PRESET: &'static str = "?LoadPreset@AudioPostProcessWrapper@@QAEXH@Z";

/// `bool AudioPostProcessWrapper::GetExternalDSPSet(IExternalDSPSet**)`.
pub const APO_GET_EXTERNAL_SET: &'static str =
    "?GetExternalDSPSet@AudioPostProcessWrapper@@QAE_NPAPAUIExternalDSPSet@@@Z";

/// Bytes reserved for one `AudioPostProcessWrapper` (it holds one pointer).
pub const WRAPPER_STORAGE: usize = 0x40;

/// Byte offset of `flush` in the `IExternalDSPSet` vtable.
pub const VT_FLUSH: usize = 0x10;

/// Byte offset of `Process` in the `IExternalDSPSet` vtable.
pub const VT_PROCESS: usize = 0x14;

/// The text of a Windows error code.
pub open spec fn last_error_text(code: u32) -> Seq<char> {
    "Win32 错误码 "@ + hex_text(code as nat)
}

/// Formats a Windows error code as readable text: `Win32 错误码 0x…`.
pub fn last_error_msg(code: u32) -> (r: String)
    ensures
        r@ == last_error_text(code),
{
    let mut s = String::from_str("Win32 错误码 ");
    let h = hex_string(code);
    s.append(h.as_str());
    s
}

/// The error of a preset whose processing chain could not be obtained.
pub open spec fn chain_error_text(preset: i32) -> Seq<char> {
    "LoadPreset("@ + dec_text(preset as int) + ") 后 GetExternalDSPSet 无效"@
}

/// The error of a preset whose processing chain could not be obtained.
pub fn chain_error_message(preset: i32) -> (r: String)
    ensures
        r@ == chain_error_text(preset),
{
    let mut s = String::from_str("LoadPreset(");
    push_dec_i64(&mut s, preset as i64);
    s.append(") 后 GetExternalDSPSet 无效");
    s
}

/// The error of an export that the DLL does not have.
pub fn symbol_missing_message(mangled: &str) -> (r: String)
    ensures
        r@ == "符号未找到: "@ + mangled@,
{
    let mut s = String::from_str("符号未找到: ");
    s.append(mangled);
    s
}

/// The error of a failed `LoadLibraryExW`: the error text, then the path.
pub fn load_failure_message(code: u32, path: &str) -> (r: String)
    ensures
        r@ == "LoadLibraryExW 失败: "@ + last_error_text(code) + " ("@ + path@ + ")"@,
{
    let mut s = String::from_str("LoadLibraryExW 失败: ");
    let e = last_error_msg(code);
    s.append(e.as_str());
    s.append(" (");
    s.append(path);
    s.append(")");
    s
}

/// The error of a DLL directory that holds no `dsp.dll`.
pub fn dll_missing_message(path: &str) -> (r: String)
    ensures
        r@ == "找不到 "@ + path@,
{
    let mut s = String::from_str("找不到 ");
    s.append(path);
    s
}

} // verus!
