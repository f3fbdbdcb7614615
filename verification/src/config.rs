//! Configuration of a runner.
use vstd::prelude::*;

use crate::ids::PageNumber;
use crate::memory::BASIC_PAGE_SIZE;

verus! {

/// Number of static pages, unless configured otherwise.
pub const BASIC_PAGES: u32 = 256;

/// Number of pages that programs may use, unless configured otherwise.
pub const MAX_PAGES: u32 = 16384;

/// Runner configuration.
#[derive(Clone, Copy, Debug)]
pub struct Config {
    /// Number of static pages.
    pub static_pages: PageNumber,
    /// Total pages count.
    pub max_pages: PageNumber,
}

impl Default for Config {
    fn default() -> (config: Config)
        ensures
            config.static_pages.raw == BASIC_PAGES == 256,
            config.max_pages.raw == MAX_PAGES == 16384,
    {
        Config { static_pages: BASIC_PAGES.into(), max_pages: MAX_PAGES.into() }
    }
}

impl Config {
    /// Number of bytes in the static pages.
    pub open spec fn static_size(&self) -> int {
        self.static_pages.raw * BASIC_PAGE_SIZE
    }
}

} // verus!
