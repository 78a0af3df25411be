//! The visibility policy: given the merged image and an explicit export
//! set, every global symbol is reclassified as externally visible or
//! internal, with two target-specific exceptions — names carrying the
//! backend's reserved intrinsic prefix are never touched, and a function
//! with no body is genuinely provided from outside the image and must not
//! be forced internal.

use vstd::prelude::*;

use crate::bytes::bytes_eq;
use crate::bytes::starts_with;
use crate::image::Image;
use crate::image::Linkage;
use crate::image::Symbol;
use crate::image::SymbolKind;
use crate::image::Visibility;

verus! {

/// The backend's reserved intrinsic prefix, `llvm.`, as bytes.
pub open spec fn intrinsic_prefix() -> Seq<u8> {
    seq![108u8, 108u8, 118u8, 109u8, 46u8]
}

fn intrinsic_prefix_bytes() -> (r: Vec<u8>)
    ensures
        r@ == intrinsic_prefix(),
{
    let mut v: Vec<u8> = Vec::new();
    v.push(108);
    v.push(108);
    v.push(118);
    v.push(109);
    v.push(46);
    proof {
        assert(v@ =~= intrinsic_prefix());
    }
    v
}

/// The name designates a backend-provided pseudo-function.
pub open spec fn is_intrinsic_name(name: Seq<u8>) -> bool {
    intrinsic_prefix().is_prefix_of(name)
}

/// Runtime test for [`is_intrinsic_name`].
pub fn name_is_intrinsic(name: &[u8]) -> (r: bool)
    ensures
        r == is_intrinsic_name(name@),
{
    let p = intrinsic_prefix_bytes();
    starts_with(name, p.as_slice())
}

/// The explicit allow-list of symbol names that must remain externally
/// visible. Membership is exact-match on the whole name, never a prefix or
/// pattern match.
pub struct ExportSet {
    pub names: Vec<Vec<u8>>,
}

impl View for ExportSet {
    type V = Set<Seq<u8>>;

    open spec fn view(&self) -> Set<Seq<u8>> {
        Set::new(
            |s: Seq<u8>|
                exists|i: int|
                    0 <= i < self.names@.len() && (#[trigger] self.names@[i])@ == s,
        )
    }
}

impl ExportSet {
    /// Builds the set from a flat list of symbol names.
    pub fn from_names(names: Vec<Vec<u8>>) -> (r: ExportSet)
        ensures
            r.names@ == names@,
            forall|s: Seq<u8>|
                #[trigger] r@.contains(s) == exists|i: int|
                    0 <= i < names@.len() && (#[trigger] names@[i])@ == s,
    {
        ExportSet { names }
    }

    /// Exact-match membership test.
    pub fn contains(&self, name: &[u8]) -> (r: bool)
        ensures
            r == self@.contains(name@),
    {
        let mut i: usize = 0;
        while i < self.names.len()
            invariant
                i <= self.names@.len(),
                forall|j: int| 0 <= j < i ==> (#[trigger] self.names@[j])@ != name@,
            decreases self.names@.len() - i,
        {
            if bytes_eq(self.names[i].as_slice(), name) {
                return true;
            }
            i += 1;
        }
        false
    }
}

/// The policy's core decision: a symbol is internalized exactly when its
/// name is neither intrinsic-prefixed nor exported, and it is not a
/// declaration-only function.
pub open spec fn internalize_applies(
    name: Seq<u8>,
    is_function: bool,
    defined: bool,
    exports: Set<Seq<u8>>,
) -> bool {
    &&& !is_intrinsic_name(name)
    &&& !exports.contains(name)
    &&& !(is_function && !defined)
}

/// [`internalize_applies`] lifted to a model symbol.
pub open spec fn should_internalize(s: Symbol, exports: Set<Seq<u8>>) -> bool {
    internalize_applies(s.name@, s.kind == SymbolKind::Function, s.defined, exports)
}

/// What one run of the policy does to one symbol: identity and attributes
/// are kept; linkage becomes internal and visibility default exactly for
/// the symbols the policy selects, and both are untouched otherwise.
pub open spec fn policy_applied(pre: Symbol, post: Symbol, exports: Set<Seq<u8>>) -> bool {
    &&& Symbol::same_identity(pre, post)
    &&& post.noinline == pre.noinline
    &&& if should_internalize(pre, exports) {
        post.linkage == Linkage::Internal && post.visibility == Visibility::Default
    } else {
        post.linkage == pre.linkage && post.visibility == pre.visibility
    }
}

/// The decision alone, on plain values, for callers that hold the real
/// backend's symbol handles rather than model symbols.
#[derive(Clone, Copy, Debug, PartialEq, Eq, Structural)]
pub enum VisibilityAction {
    SetInternal,
    Leave,
}

/// Decides whether a symbol with the given attributes is internalized.
pub fn internalize_action(
    name: &[u8],
    is_function: bool,
    defined: bool,
    exports: &ExportSet,
) -> (a: VisibilityAction)
    ensures
        (a == VisibilityAction::SetInternal) == internalize_applies(
            name@,
            is_function,
            defined,
            exports@,
        ),
{
    if name_is_intrinsic(name) {
        return VisibilityAction::Leave;
    }
    if exports.contains(name) {
        return VisibilityAction::Leave;
    }
    if is_function && !defined {
        return VisibilityAction::Leave;
    }
    VisibilityAction::SetInternal
}

/// Applies the policy to one model symbol.
pub fn internalize(sym: &mut Symbol, exports: &ExportSet)
    ensures
        policy_applied(*old(sym), *final(sym), exports@),
{
    let is_function = sym.kind == SymbolKind::Function;
    let act = internalize_action(sym.name.as_slice(), is_function, sym.defined, exports);
    if act == VisibilityAction::SetInternal {
        sym.linkage = Linkage::Internal;
        sym.visibility = Visibility::Default;
    }
}

/// The policy ran over the whole image: every symbol of every category is
/// related to its pre-policy value by [`policy_applied`], and nothing was
/// added, removed or reordered.
pub open spec fn policy_ran(pre: Image, post: Image, exports: Set<Seq<u8>>) -> bool {
    &&& post.globals@.len() == pre.globals@.len()
    &&& post.aliases@.len() == pre.aliases@.len()
    &&& post.functions@.len() == pre.functions@.len()
    &&& forall|i: int|
        0 <= i < pre.globals@.len() ==> policy_applied(
            pre.globals@[i],
            #[trigger] post.globals@[i],
            exports,
        )
    &&& forall|i: int|
        0 <= i < pre.aliases@.len() ==> policy_applied(
            pre.aliases@[i],
            #[trigger] post.aliases@[i],
            exports,
        )
    &&& forall|i: int|
        0 <= i < pre.functions@.len() ==> policy_applied(
            pre.functions@[i],
            #[trigger] post.functions@[i],
            exports,
        )
}

/// Runs the visibility policy over the merged image: globals and aliases
/// first, then functions, each category in the image's natural enumeration
/// order.
pub fn internalize_image(image: &mut Image, exports: &ExportSet)
    ensures
        policy_ran(*old(image), *final(image), exports@),
        final(image).module_asm == old(image).module_asm,
        final(image).has_debug_info == old(image).has_debug_info,
        old(image).wf() ==> final(image).wf(),
{
    let n = image.globals.len();
    let mut i: usize = 0;
    while i < n
        invariant
            n == old(image).globals@.len(),
            i <= n,
            image.globals@.len() == n,
            forall|j: int|
                0 <= j < i ==> policy_applied(
                    old(image).globals@[j],
                    #[trigger] image.globals@[j],
                    exports@,
                ),
            forall|j: int| i <= j < n ==> image.globals@[j] == old(image).globals@[j],
            image.aliases == old(image).aliases,
            image.functions == old(image).functions,
            image.module_asm == old(image).module_asm,
            image.has_debug_info == old(image).has_debug_info,
        decreases n - i,
    {
        internalize(&mut image.globals[i], exports);
        i += 1;
    }

    let n = image.aliases.len();
    let mut i: usize = 0;
    while i < n
        invariant
            n == old(image).aliases@.len(),
            i <= n,
            image.aliases@.len() == n,
            image.globals@.len() == old(image).globals@.len(),
            forall|j: int|
                0 <= j < old(image).globals@.len() ==> policy_applied(
                    old(image).globals@[j],
                    #[trigger] image.globals@[j],
                    exports@,
                ),
            forall|j: int|
                0 <= j < i ==> policy_applied(
                    old(image).aliases@[j],
                    #[trigger] image.aliases@[j],
                    exports@,
                ),
            forall|j: int| i <= j < n ==> image.aliases@[j] == old(image).aliases@[j],
            image.functions == old(image).functions,
            image.module_asm == old(image).module_asm,
            image.has_debug_info == old(image).has_debug_info,
        decreases n - i,
    {
        internalize(&mut image.aliases[i], exports);
        i += 1;
    }

    let n = image.functions.len();
    let mut i: usize = 0;
    while i < n
        invariant
            n == old(image).functions@.len(),
            i <= n,
            image.functions@.len() == n,
            image.globals@.len() == old(image).globals@.len(),
            image.aliases@.len() == old(image).aliases@.len(),
            forall|j: int|
                0 <= j < old(image).globals@.len() ==> policy_applied(
                    old(image).globals@[j],
                    #[trigger] image.globals@[j],
                    exports@,
                ),
            forall|j: int|
                0 <= j < old(image).aliases@.len() ==> policy_applied(
                    old(image).aliases@[j],
                    #[trigger] image.aliases@[j],
                    exports@,
                ),
            forall|j: int|
                0 <= j < i ==> policy_applied(
                    old(image).functions@[j],
                    #[trigger] image.functions@[j],
                    exports@,
                ),
            forall|j: int| i <= j < n ==> image.functions@[j] == old(image).functions@[j],
            image.module_asm == old(image).module_asm,
            image.has_debug_info == old(image).has_debug_info,
        decreases n - i,
    {
        internalize(&mut image.functions[i], exports);
        i += 1;
    }
}

/// Each symbol's classification is independent and fully determined by the
/// symbol's own pre-policy state and the export set, so the order in which
/// the policy walks the image has no effect on the outcome.
pub proof fn lemma_policy_deterministic(
    pre: Symbol,
    post1: Symbol,
    post2: Symbol,
    exports: Set<Seq<u8>>,
)
    requires
        policy_applied(pre, post1, exports),
        policy_applied(pre, post2, exports),
    ensures
        post1.name@ == post2.name@,
        post1.kind == post2.kind,
        post1.linkage == post2.linkage,
        post1.visibility == post2.visibility,
        post1.defined == post2.defined,
        post1.noinline == post2.noinline,
{
}

/// Any symbol whose name is in the export set keeps its linkage and its
/// visibility across the policy.
pub proof fn lemma_exported_symbol_untouched(pre: Symbol, post: Symbol, exports: Set<Seq<u8>>)
    requires
        policy_applied(pre, post, exports),
        exports.contains(pre.name@),
    ensures
        post.linkage == pre.linkage,
        post.visibility == pre.visibility,
{
}

/// Any function symbol with no body keeps its linkage and its visibility
/// across the policy, exported or not.
pub proof fn lemma_undefined_function_untouched(pre: Symbol, post: Symbol, exports: Set<Seq<u8>>)
    requires
        policy_applied(pre, post, exports),
        pre.kind == SymbolKind::Function,
        !pre.defined,
    ensures
        post.linkage == pre.linkage,
        post.visibility == pre.visibility,
{
}

/// Any symbol that is neither exported nor intrinsic-prefixed, and that is
/// not a declaration-only function, comes out of the policy with internal
/// linkage and default visibility.
pub proof fn lemma_candidate_internalized(pre: Symbol, post: Symbol, exports: Set<Seq<u8>>)
    requires
        policy_applied(pre, post, exports),
        !exports.contains(pre.name@),
        !is_intrinsic_name(pre.name@),
        pre.kind == SymbolKind::Function ==> pre.defined,
    ensures
        post.linkage == Linkage::Internal,
        post.visibility == Visibility::Default,
{
}

} // verus!
