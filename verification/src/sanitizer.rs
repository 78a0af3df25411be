//! The target sanitizer: the restricted target cannot execute the
//! stack-probing code some frontends inject, so a module-level
//! inline-assembly blob containing the probe marker is cleared whole; and,
//! when requested, the inlining-suppression attribute is removed from every
//! non-intrinsic function so that internalized-but-reachable functions stay
//! eligible for inlining.

use vstd::prelude::*;

use crate::bytes::contains_bytes;
use crate::bytes::contains_seq;
use crate::image::Image;
use crate::image::Symbol;
use crate::visibility::is_intrinsic_name;
use crate::visibility::name_is_intrinsic;

verus! {

/// The inline-assembly marker of the unsupported stack-probing mechanism,
/// `__rust_probestack`, as bytes.
pub open spec fn probestack_marker() -> Seq<u8> {
    seq![
        95u8,
        95u8,
        114u8,
        117u8,
        115u8,
        116u8,
        95u8,
        112u8,
        114u8,
        111u8,
        98u8,
        101u8,
        115u8,
        116u8,
        97u8,
        99u8,
        107u8,
    ]
}

fn probestack_marker_bytes() -> (r: Vec<u8>)
    ensures
        r@ == probestack_marker(),
{
    let mut v: Vec<u8> = Vec::new();
    v.push(95);
    v.push(95);
    v.push(114);
    v.push(117);
    v.push(115);
    v.push(116);
    v.push(95);
    v.push(112);
    v.push(114);
    v.push(111);
    v.push(98);
    v.push(101);
    v.push(115);
    v.push(116);
    v.push(97);
    v.push(99);
    v.push(107);
    proof {
        assert(v@ =~= probestack_marker());
    }
    v
}

/// The blob carries the stack-probe marker somewhere inside it.
pub open spec fn asm_has_probestack(blob: Seq<u8>) -> bool {
    contains_seq(blob, probestack_marker())
}

/// Runtime test for [`asm_has_probestack`] on a module-level
/// inline-assembly blob.
pub fn module_asm_is_probestack(blob: &[u8]) -> (r: bool)
    ensures
        r == asm_has_probestack(blob@),
{
    let marker = probestack_marker_bytes();
    contains_bytes(blob, marker.as_slice())
}

/// Clears the image's module-level inline assembly whole when it contains
/// the stack-probe marker, and leaves it byte-for-byte unchanged otherwise.
/// Symbols and debug metadata are never touched.
pub fn sanitize_module_asm(image: &mut Image)
    ensures
        asm_has_probestack(old(image).module_asm@) ==> final(image).module_asm@.len() == 0,
        !asm_has_probestack(old(image).module_asm@) ==> final(image).module_asm
            == old(image).module_asm,
        final(image).globals == old(image).globals,
        final(image).aliases == old(image).aliases,
        final(image).functions == old(image).functions,
        final(image).has_debug_info == old(image).has_debug_info,
{
    if module_asm_is_probestack(image.module_asm.as_slice()) {
        image.module_asm.clear();
    }
}

/// Whether the inlining-suppression attribute is removed from a function
/// with this name: only when removal was requested, and never from a
/// backend intrinsic.
pub open spec fn strip_noinline_applies(name: Seq<u8>, ignore_inline_never: bool) -> bool {
    ignore_inline_never && !is_intrinsic_name(name)
}

/// Runtime decision for [`strip_noinline_applies`], for callers that hold
/// the real backend's function handles.
pub fn noinline_removal_action(name: &[u8], ignore_inline_never: bool) -> (r: bool)
    ensures
        r == strip_noinline_applies(name@, ignore_inline_never),
{
    ignore_inline_never && !name_is_intrinsic(name)
}

/// What attribute removal does to one function symbol: everything but the
/// inlining-suppression attribute is kept.
pub open spec fn noinline_stripped(pre: Symbol, post: Symbol, ignore_inline_never: bool) -> bool {
    &&& Symbol::same_identity(pre, post)
    &&& post.linkage == pre.linkage
    &&& post.visibility == pre.visibility
    &&& post.noinline == (pre.noinline && !strip_noinline_applies(pre.name@, ignore_inline_never))
}

/// Removes the inlining-suppression attribute from every non-intrinsic
/// function of the image when `ignore_inline_never` is set; with the flag
/// clear this is a no-op on every symbol.
pub fn strip_noinline_attrs(image: &mut Image, ignore_inline_never: bool)
    ensures
        final(image).functions@.len() == old(image).functions@.len(),
        forall|i: int|
            0 <= i < old(image).functions@.len() ==> noinline_stripped(
                old(image).functions@[i],
                #[trigger] final(image).functions@[i],
                ignore_inline_never,
            ),
        final(image).globals == old(image).globals,
        final(image).aliases == old(image).aliases,
        final(image).module_asm == old(image).module_asm,
        final(image).has_debug_info == old(image).has_debug_info,
        old(image).wf() ==> final(image).wf(),
{
    let n = image.functions.len();
    let mut i: usize = 0;
    while i < n
        invariant
            n == old(image).functions@.len(),
            i <= n,
            image.functions@.len() == n,
            forall|j: int|
                0 <= j < i ==> noinline_stripped(
                    old(image).functions@[j],
                    #[trigger] image.functions@[j],
                    ignore_inline_never,
                ),
            forall|j: int| i <= j < n ==> image.functions@[j] == old(image).functions@[j],
            image.globals == old(image).globals,
            image.aliases == old(image).aliases,
            image.module_asm == old(image).module_asm,
            image.has_debug_info == old(image).has_debug_info,
        decreases n - i,
    {
        let f = &mut image.functions[i];
        if noinline_removal_action(f.name.as_slice(), ignore_inline_never) {
            f.noinline = false;
        }
        i += 1;
    }
}

} // verus!
