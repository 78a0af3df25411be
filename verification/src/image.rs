//! The in-memory model of the program under construction: its global
//! symbols, the module-level inline-assembly blob, and whether debug
//! metadata is present.

use vstd::prelude::*;

verus! {

/// Link-visibility of a symbol: external symbols survive linking unchanged,
/// internal ones are local to the image and eligible for dead-code
/// elimination when unreferenced.
#[derive(Clone, Copy, Debug, PartialEq, Eq, Structural)]
pub enum Linkage {
    External,
    Internal,
}

/// Object-visibility of a symbol.
#[derive(Clone, Copy, Debug, PartialEq, Eq, Structural)]
pub enum Visibility {
    Default,
    Hidden,
}

/// The three kinds of named global entity a program image holds.
#[derive(Clone, Copy, Debug, PartialEq, Eq, Structural)]
pub enum SymbolKind {
    Global,
    Alias,
    Function,
}

/// One named global entity of the program image.
///
/// `defined` records, for functions, whether a body is present (a
/// declaration-only function is genuinely provided from outside the image);
/// `noinline` records whether the inlining-suppression attribute is set.
pub struct Symbol {
    pub name: Vec<u8>,
    pub kind: SymbolKind,
    pub linkage: Linkage,
    pub visibility: Visibility,
    pub defined: bool,
    pub noinline: bool,
}

impl Symbol {
    /// The two symbols agree on everything the visibility policy never
    /// changes: name, kind and definedness.
    pub open spec fn same_identity(pre: Symbol, post: Symbol) -> bool {
        &&& post.name@ == pre.name@
        &&& post.kind == pre.kind
        &&& post.defined == pre.defined
    }

}

/// The single accumulating merged program. Symbols are held by category in
/// the image's natural enumeration order, which every stage preserves.
pub struct Image {
    pub globals: Vec<Symbol>,
    pub aliases: Vec<Symbol>,
    pub functions: Vec<Symbol>,
    pub module_asm: Vec<u8>,
    pub has_debug_info: bool,
}

impl Image {
    /// Each category's list holds symbols of that category alone.
    pub open spec fn wf(self) -> bool {
        &&& forall|i: int| 0 <= i < self.globals@.len() ==> (#[trigger] self.globals@[i].kind) == SymbolKind::Global
        &&& forall|i: int| 0 <= i < self.aliases@.len() ==> (#[trigger] self.aliases@[i].kind) == SymbolKind::Alias
        &&& forall|i: int| 0 <= i < self.functions@.len() ==> (#[trigger] self.functions@[i].kind) == SymbolKind::Function
    }

    /// A fresh, empty image: no symbols, no inline assembly, no debug info.
    pub fn new() -> (r: Image)
        ensures
            r.wf(),
            r.globals@.len() == 0,
            r.aliases@.len() == 0,
            r.functions@.len() == 0,
            r.module_asm@.len() == 0,
            !r.has_debug_info,
    {
        Image {
            globals: Vec::new(),
            aliases: Vec::new(),
            functions: Vec::new(),
            module_asm: Vec::new(),
            has_debug_info: false,
        }
    }
}

} // verus!
