use vstd::prelude::*;

verus! {

/// The configurable options of the host window.
/// They can be queried and updated.
pub struct Config {
    pub title: String,
    pub width: u32,
    pub height: u32,
    pub fullscreen: bool,
}

impl Config {
    pub fn new(title: &str, width: u32, height: u32, fullscreen: bool) -> (r: Config)
        ensures
            r.title@ == title@,
            r.width == width,
            r.height == height,
            r.fullscreen == fullscreen,
    {
        Config { title: title.to_owned(), width, height, fullscreen }
    }
}

} // verus!
