//! The debug-info stripper: a single idempotent operation that removes all
//! debug metadata from the image and reports whether any was present.

use vstd::prelude::*;

use crate::image::Image;

verus! {

/// One run of the stripper: `removed` reports whether metadata was present,
/// the post-image carries none, and nothing else changes.
pub open spec fn strip_outcome(pre: Image, post: Image, removed: bool) -> bool {
    &&& removed == pre.has_debug_info
    &&& !post.has_debug_info
    &&& post.globals == pre.globals
    &&& post.aliases == pre.aliases
    &&& post.functions == pre.functions
    &&& post.module_asm == pre.module_asm
}

/// Strips all debug metadata from the image; returns whether any metadata
/// was actually present and removed (informational only, not an error
/// signal).
pub fn strip_debug_info(image: &mut Image) -> (removed: bool)
    ensures
        strip_outcome(*old(image), *final(image), removed),
{
    let removed = image.has_debug_info;
    image.has_debug_info = false;
    removed
}

/// Idempotence: a second run of the stripper changes nothing and reports
/// that nothing was removed, so stripping twice is equivalent to stripping
/// once.
pub proof fn lemma_strip_idempotent(
    i0: Image,
    i1: Image,
    i2: Image,
    removed1: bool,
    removed2: bool,
)
    requires
        strip_outcome(i0, i1, removed1),
        strip_outcome(i1, i2, removed2),
    ensures
        !removed2,
        i2.globals == i1.globals,
        i2.aliases == i1.aliases,
        i2.functions == i1.functions,
        i2.module_asm == i1.module_asm,
        i2.has_debug_info == i1.has_debug_info,
        strip_outcome(i0, i2, removed1),
{
}

} // verus!
