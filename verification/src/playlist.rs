//! Messages reported when presets are added to the playlist.
use vstd::prelude::*;

use crate::text::decimal;
use crate::text::push_decimal;

verus! {

/// The two lines reported after the presets under `preset_path` were added
/// to the playlist, which then holds `playlist_size` presets.
pub open spec fn preset_path_report(preset_path: Seq<char>, playlist_size: u32) -> (Seq<char>, Seq<char>) {
    ("added preset path: "@ + preset_path, "playlist size: "@ + decimal(playlist_size as nat))
}

/// Builds the report on adding the presets under `preset_path`:
/// `added preset path: <path>` and `playlist size: <size>`.
pub fn preset_path_messages(preset_path: &str, playlist_size: u32) -> (lines: (String, String))
    ensures
        (lines.0@, lines.1@) == preset_path_report(preset_path@, playlist_size),
{
    let mut added = "added preset path: ".to_owned();
    added.append(preset_path);
    let mut size = "playlist size: ".to_owned();
    push_decimal(&mut size, playlist_size as u64);
    (added, size)
}

} // verus!
