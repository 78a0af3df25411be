use bpf_linker::image::Image;
use bpf_linker::image::Linkage;
use bpf_linker::image::Symbol;
use bpf_linker::image::SymbolKind;
use bpf_linker::image::Visibility;
use bpf_linker::visibility::internalize;
use bpf_linker::visibility::internalize_action;
use bpf_linker::visibility::internalize_image;
use bpf_linker::visibility::name_is_intrinsic;
use bpf_linker::visibility::ExportSet;
use bpf_linker::visibility::VisibilityAction;

fn sym(name: &[u8], kind: SymbolKind, defined: bool) -> Symbol {
    Symbol {
        name: name.to_vec(),
        kind,
        linkage: Linkage::External,
        visibility: Visibility::Default,
        defined,
        noinline: false,
    }
}

fn exports(names: &[&[u8]]) -> ExportSet {
    ExportSet::from_names(names.iter().map(|n| n.to_vec()).collect())
}

#[test]
fn exported_symbol_keeps_linkage() {
    let es = exports(&[b"test_x"]);
    let mut image = Image::new();
    image.functions.push(sym(b"test_x", SymbolKind::Function, true));
    image.globals.push(sym(b"test_x", SymbolKind::Global, true));
    internalize_image(&mut image, &es);
    assert_eq!(image.functions[0].linkage, Linkage::External);
    assert_eq!(image.functions[0].visibility, Visibility::Default);
    assert_eq!(image.globals[0].linkage, Linkage::External);
}

#[test]
fn undefined_function_never_internalized() {
    let es = exports(&[]);
    let mut decl = sym(b"helper_from_outside", SymbolKind::Function, false);
    internalize(&mut decl, &es);
    assert_eq!(decl.linkage, Linkage::External);
    assert_eq!(decl.visibility, Visibility::Default);
}

#[test]
fn body_exception_applies_to_functions_only() {
    let es = exports(&[]);
    let mut alias = sym(b"some_alias", SymbolKind::Alias, false);
    let mut global = sym(b"some_global", SymbolKind::Global, false);
    internalize(&mut alias, &es);
    internalize(&mut global, &es);
    assert_eq!(alias.linkage, Linkage::Internal);
    assert_eq!(global.linkage, Linkage::Internal);
}

#[test]
fn candidate_becomes_internal_with_default_visibility() {
    let es = exports(&[b"test_x"]);
    let mut hidden = Symbol {
        name: b"unexported".to_vec(),
        kind: SymbolKind::Function,
        linkage: Linkage::External,
        visibility: Visibility::Hidden,
        defined: true,
        noinline: true,
    };
    internalize(&mut hidden, &es);
    assert_eq!(hidden.linkage, Linkage::Internal);
    assert_eq!(hidden.visibility, Visibility::Default);
    // the policy never touches the attribute set
    assert!(hidden.noinline);
}

#[test]
fn intrinsic_prefix_always_exempt() {
    let es = exports(&[]);
    let mut intrinsic = sym(b"llvm.memcpy.p0.p0.i64", SymbolKind::Function, true);
    internalize(&mut intrinsic, &es);
    assert_eq!(intrinsic.linkage, Linkage::External);
    assert!(name_is_intrinsic(b"llvm.memcpy.p0.p0.i64"));
    assert!(!name_is_intrinsic(b"llvm"));
    assert!(!name_is_intrinsic(b"xllvm.foo"));
    assert!(name_is_intrinsic(b"llvm."));
}

#[test]
fn export_membership_is_exact_match() {
    let es = exports(&[b"test_"]);
    // a prefix of the symbol's name in the export set does not protect it
    let mut f = sym(b"test_x", SymbolKind::Function, true);
    internalize(&mut f, &es);
    assert_eq!(f.linkage, Linkage::Internal);

    // and a symbol that is a prefix of an exported name is not protected either
    let es = exports(&[b"test_x"]);
    let mut g = sym(b"test_", SymbolKind::Function, true);
    internalize(&mut g, &es);
    assert_eq!(g.linkage, Linkage::Internal);
}

#[test]
fn action_on_plain_values() {
    let es = exports(&[b"keep_me"]);
    assert_eq!(internalize_action(b"keep_me", false, true, &es), VisibilityAction::Leave);
    assert_eq!(internalize_action(b"drop_me", false, true, &es), VisibilityAction::SetInternal);
    assert_eq!(internalize_action(b"llvm.bswap.i32", true, true, &es), VisibilityAction::Leave);
    assert_eq!(internalize_action(b"decl_only", true, false, &es), VisibilityAction::Leave);
    assert_eq!(internalize_action(b"defined_fn", true, true, &es), VisibilityAction::SetInternal);
}

#[test]
fn policy_processes_every_category() {
    let es = exports(&[b"exported_global"]);
    let mut image = Image::new();
    image.globals.push(sym(b"exported_global", SymbolKind::Global, true));
    image.globals.push(sym(b"private_global", SymbolKind::Global, true));
    image.aliases.push(sym(b"private_alias", SymbolKind::Alias, true));
    image.functions.push(sym(b"private_fn", SymbolKind::Function, true));
    internalize_image(&mut image, &es);
    assert_eq!(image.globals[0].linkage, Linkage::External);
    assert_eq!(image.globals[1].linkage, Linkage::Internal);
    assert_eq!(image.aliases[0].linkage, Linkage::Internal);
    assert_eq!(image.functions[0].linkage, Linkage::Internal);
}
