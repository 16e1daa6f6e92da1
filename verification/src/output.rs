use vstd::prelude::*;

verus! {

/// Configuration snapshot for one output: where wallpaper images come from
/// and how long each one is shown. Replaced wholesale when the
/// configuration changes.
pub struct Output {
    /// Image source: a single file, or a directory of candidates.
    pub path: String,
    /// Display duration of one wallpaper, if the configuration sets one.
    pub duration: Option<u32>,
}

} // verus!
