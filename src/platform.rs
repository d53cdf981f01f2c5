//! Platform answers that need no native call, and the shaping of what the
//! native sensors return.

use vstd::prelude::*;
use crate::reporter::WindowInfo;

verus! {

/// Requests the permissions window and media sensing need. Windows asks for
/// none, so this always succeeds.
pub fn request_permissions() -> (r: Result<bool, String>)
    ensures
        r == Ok::<bool, String>(true),
{
    Ok(true)
}

/// Whether the permissions are granted; always so on Windows.
pub fn check_permissions() -> (r: bool)
    ensures
        r,
{
    true
}

/// All windows of interest, given what the foreground-window sensor
/// answered: just the foreground window, or none when the sensor failed.
pub fn get_all_windows(frontmost: Result<WindowInfo, String>) -> (r: Result<Vec<WindowInfo>, String>)
    ensures
        r.is_ok(),
        frontmost.is_ok() ==> r.unwrap()@ == seq![frontmost.unwrap()],
        frontmost.is_err() ==> r.unwrap()@.len() == 0,
{
    match frontmost {
        Ok(info) => {
            let mut v: Vec<WindowInfo> = Vec::new();
            v.push(info);
            assert(v@ =~= seq![frontmost.unwrap()]);
            Ok(v)
        },
        Err(_) => Ok(Vec::new()),
    }
}

/// The icon of a window, by title. No icon source is wired in, so the
/// result is empty and reports carry no icon.
pub fn get_window_icon(window_title: &str) -> (r: Vec<u8>)
    ensures
        r@.len() == 0,
{
    Vec::new()
}

/// Media information where no media sensor is available: empty title,
/// artist and source, no thumbnail, zero duration and position.
pub fn get_media_info() -> (r: (String, String, String, Vec<u8>, i64, i64))
    ensures
        r.0@.len() == 0,
        r.1@.len() == 0,
        r.2@.len() == 0,
        r.3@.len() == 0,
        r.4 == 0,
        r.5 == 0,
{
    (String::new(), String::new(), String::new(), Vec::new(), 0, 0)
}

} // verus!
