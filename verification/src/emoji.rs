//! The signs that begin the lines of output.

use vstd::prelude::*;

verus! {

/// Marks a piece of information.
pub const EMOJI_INFO: &'static str = "\u{2139}\u{fe0f}";

/// Marks a success.
pub const EMOJI_SUCCESS: &'static str = "\u{2705}";

/// Marks a warning.
pub const EMOJI_WARNING: &'static str = "\u{26a0}\u{fe0f}";

/// Marks an error.
pub const EMOJI_ERROR: &'static str = "\u{274c}";

/// Marks a hint.
pub const EMOJI_LIGHTBULB: &'static str = "\u{1f4a1}";

/// Marks a pinned commit.
pub const EMOJI_PIN: &'static str = "\u{1f4cc}";

/// Marks the unpinned state.
pub const EMOJI_UNLOCK: &'static str = "\u{1f513}";

/// Marks a hash.
pub const EMOJI_KEY: &'static str = "\u{1f511}";

/// Marks a build path.
pub const EMOJI_PACKAGE: &'static str = "\u{1f4e6}";

/// Marks the current upstream commit.
pub const EMOJI_CHART: &'static str = "\u{1f4c8}";

/// Marks a link.
pub const EMOJI_LINK: &'static str = "\u{1f517}";

/// Marks a search.
pub const EMOJI_SEARCH: &'static str = "\u{1f50d}";

} // verus!
