//! The optimization driver: maps the requested level to a named default
//! pass pipeline — with a dead-code-elimination pass always appended, since
//! not every default pipeline is guaranteed to include one and the
//! visibility policy's internalization depends on it running — and prepares
//! the image for the pass run: sanitize the inline assembly, optionally drop
//! the inlining-suppression attribute, then run the visibility policy.

use vstd::prelude::*;

use crate::image::Image;
use crate::image::Linkage;
use crate::image::Symbol;
use crate::image::Visibility;
use crate::sanitizer::asm_has_probestack;
use crate::sanitizer::sanitize_module_asm;
use crate::sanitizer::strip_noinline_applies;
use crate::sanitizer::strip_noinline_attrs;
use crate::visibility::ExportSet;
use crate::visibility::internalize_image;
use crate::visibility::policy_applied;
use crate::visibility::should_internalize;

verus! {

/// The requested optimization level, a small closed enumeration.
#[derive(Clone, Copy, Debug, PartialEq, Eq, Structural)]
pub enum OptLevel {
    No,
    Less,
    Default,
    Aggressive,
    Size,
    SizeMin,
}

/// The named default pipeline each level selects. The backend cannot
/// produce correct code for the restricted target at true zero
/// optimization, so `No` and `Less` both select the same minimal pipeline.
pub open spec fn default_pipeline_spec(level: OptLevel) -> Seq<char> {
    match level {
        OptLevel::No => "default<O1>"@,
        OptLevel::Less => "default<O1>"@,
        OptLevel::Default => "default<O2>"@,
        OptLevel::Aggressive => "default<O3>"@,
        OptLevel::Size => "default<Os>"@,
        OptLevel::SizeMin => "default<Oz>"@,
    }
}

/// The full pipeline: the level's default pipeline with dead-code
/// elimination appended unconditionally.
pub open spec fn pipeline_spec(level: OptLevel) -> Seq<char> {
    default_pipeline_spec(level) + ","@ + "dce"@
}

/// The pass-pipeline string handed to the backend for the requested level.
pub fn optimization_pipeline(level: OptLevel) -> (r: &'static str)
    ensures
        r@ == pipeline_spec(level),
{
    proof {
        reveal_strlit("default<O1>,dce");
        reveal_strlit("default<O2>,dce");
        reveal_strlit("default<O3>,dce");
        reveal_strlit("default<Os>,dce");
        reveal_strlit("default<Oz>,dce");
        reveal_strlit("default<O1>");
        reveal_strlit("default<O2>");
        reveal_strlit("default<O3>");
        reveal_strlit("default<Os>");
        reveal_strlit("default<Oz>");
        reveal_strlit(",");
        reveal_strlit("dce");
        assert("default<O1>,dce"@ =~= "default<O1>"@ + ","@ + "dce"@);
        assert("default<O2>,dce"@ =~= "default<O2>"@ + ","@ + "dce"@);
        assert("default<O3>,dce"@ =~= "default<O3>"@ + ","@ + "dce"@);
        assert("default<Os>,dce"@ =~= "default<Os>"@ + ","@ + "dce"@);
        assert("default<Oz>,dce"@ =~= "default<Oz>"@ + ","@ + "dce"@);
    }
    match level {
        OptLevel::No => "default<O1>,dce",
        OptLevel::Less => "default<O1>,dce",
        OptLevel::Default => "default<O2>,dce",
        OptLevel::Aggressive => "default<O3>,dce",
        OptLevel::Size => "default<Os>,dce",
        OptLevel::SizeMin => "default<Oz>,dce",
    }
}

/// What preparation does to one function symbol: the inlining-suppression
/// attribute is dropped where removal applies, and linkage and visibility
/// follow the visibility policy.
pub open spec fn function_prepared(
    pre: Symbol,
    post: Symbol,
    exports: Set<Seq<u8>>,
    ignore_inline_never: bool,
) -> bool {
    &&& Symbol::same_identity(pre, post)
    &&& post.noinline == (pre.noinline && !strip_noinline_applies(pre.name@, ignore_inline_never))
    &&& if should_internalize(pre, exports) {
        post.linkage == Linkage::Internal && post.visibility == Visibility::Default
    } else {
        post.linkage == pre.linkage && post.visibility == pre.visibility
    }
}

/// Prepares the merged image for the pass run: clears the module-level
/// inline assembly if it carries the stack-probe marker, removes the
/// inlining-suppression attribute from non-intrinsic functions when
/// requested, and runs the visibility policy over globals, aliases and
/// functions.
pub fn prepare_image(image: &mut Image, exports: &ExportSet, ignore_inline_never: bool)
    ensures
        asm_has_probestack(old(image).module_asm@) ==> final(image).module_asm@.len() == 0,
        !asm_has_probestack(old(image).module_asm@) ==> final(image).module_asm@
            == old(image).module_asm@,
        final(image).globals@.len() == old(image).globals@.len(),
        final(image).aliases@.len() == old(image).aliases@.len(),
        final(image).functions@.len() == old(image).functions@.len(),
        forall|i: int|
            0 <= i < old(image).globals@.len() ==> policy_applied(
                old(image).globals@[i],
                #[trigger] final(image).globals@[i],
                exports@,
            ),
        forall|i: int|
            0 <= i < old(image).aliases@.len() ==> policy_applied(
                old(image).aliases@[i],
                #[trigger] final(image).aliases@[i],
                exports@,
            ),
        forall|i: int|
            0 <= i < old(image).functions@.len() ==> function_prepared(
                old(image).functions@[i],
                #[trigger] final(image).functions@[i],
                exports@,
                ignore_inline_never,
            ),
        final(image).has_debug_info == old(image).has_debug_info,
        old(image).wf() ==> final(image).wf(),
{
    sanitize_module_asm(image);
    let ghost after_sanitize = *image;
    strip_noinline_attrs(image, ignore_inline_never);
    let ghost after_strip = *image;
    internalize_image(image, exports);
    proof {
        assert forall|i: int|
            0 <= i < old(image).functions@.len() implies function_prepared(
            old(image).functions@[i],
            #[trigger] image.functions@[i],
            exports@,
            ignore_inline_never,
        ) by {
            assert(after_sanitize.functions@[i] == old(image).functions@[i]);
            let mid = after_strip.functions@[i];
            assert(should_internalize(mid, exports@) == should_internalize(
                old(image).functions@[i],
                exports@,
            ));
        }
    }
}

} // verus!
