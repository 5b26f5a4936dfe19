//! `mitos-settings pick-wallpaper`: what follows the MITOS file picker's
//! answer. There is no file browser here by design: the picker is asked
//! over D-Bus by the program around this library.

use vstd::prelude::*;

verus! {

/// The setting a picked wallpaper goes to.
pub const WALLPAPER_KEY: &'static str = "wallpaper.desktop_path";

/// What to do with the picker's answer.
#[derive(Debug, Clone, PartialEq, Eq)]
pub enum WallpaperPick {
    /// Store this path under `WALLPAPER_KEY`, then print the confirmation.
    Apply(String),
    /// Nothing was chosen; print this.
    Nothing(String),
}

/// Reads the picker's answer: a chosen path is to be stored, no choice is
/// reported as such, and an unreachable picker is an error.
pub fn execute(picked: Result<Option<String>, String>) -> (r: Result<WallpaperPick, String>)
    ensures
        match picked {
            Ok(Some(path)) => r matches Ok(WallpaperPick::Apply(p)) && p@ == path@,
            Ok(None) => r matches Ok(WallpaperPick::Nothing(m)) && m@ == "No file selected."@,
            Err(e) => r matches Err(m) && m@ == "could not reach the MITOS file picker: "@ + e@,
        },
{
    match picked {
        Ok(Some(path)) => Ok(WallpaperPick::Apply(path)),
        Ok(None) => Ok(WallpaperPick::Nothing(String::from_str("No file selected."))),
        Err(e) => {
            let mut msg = String::from_str("could not reach the MITOS file picker: ");
            msg.append(e.as_str());
            Err(msg)
        },
    }
}

/// What is printed once the wallpaper is stored.
pub fn wallpaper_set_output(path: &str) -> (r: String)
    ensures
        r@ == "Wallpaper set to "@ + path@ + "."@,
{
    let mut out = String::from_str("Wallpaper set to ");
    out.append(path);
    out.append(".");
    out
}

} // verus!
