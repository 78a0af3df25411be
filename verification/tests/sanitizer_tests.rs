use bpf_linker::image::Image;
use bpf_linker::image::Linkage;
use bpf_linker::image::Symbol;
use bpf_linker::image::SymbolKind;
use bpf_linker::image::Visibility;
use bpf_linker::sanitizer::module_asm_is_probestack;
use bpf_linker::sanitizer::noinline_removal_action;
use bpf_linker::sanitizer::sanitize_module_asm;
use bpf_linker::sanitizer::strip_noinline_attrs;

fn image_with_asm(blob: &[u8]) -> Image {
    let mut image = Image::new();
    image.module_asm = blob.to_vec();
    image
}

fn noinline_fn(name: &[u8]) -> Symbol {
    Symbol {
        name: name.to_vec(),
        kind: SymbolKind::Function,
        linkage: Linkage::External,
        visibility: Visibility::Default,
        defined: true,
        noinline: true,
    }
}

#[test]
fn probe_marker_clears_whole_blob() {
    let blob = b".section foo\ncall __rust_probestack\nret\n";
    let mut image = image_with_asm(blob);
    sanitize_module_asm(&mut image);
    assert!(image.module_asm.is_empty());
}

#[test]
fn blob_without_marker_unchanged_byte_for_byte() {
    let blob = b".section foo\ncall something_else\nret\n";
    let mut image = image_with_asm(blob);
    sanitize_module_asm(&mut image);
    assert_eq!(image.module_asm, blob.to_vec());
}

#[test]
fn marker_detection() {
    assert!(module_asm_is_probestack(b"__rust_probestack"));
    assert!(module_asm_is_probestack(b"xx__rust_probestackyy"));
    // a truncated marker does not count
    assert!(!module_asm_is_probestack(b"__rust_probestac"));
    assert!(!module_asm_is_probestack(b""));
    assert!(!module_asm_is_probestack(b"rust_probestack"));
}

#[test]
fn empty_blob_stays_empty() {
    let mut image = image_with_asm(b"");
    sanitize_module_asm(&mut image);
    assert!(image.module_asm.is_empty());
}

#[test]
fn noinline_removed_when_requested() {
    let mut image = Image::new();
    image.functions.push(noinline_fn(b"hot_path"));
    image.functions.push(noinline_fn(b"llvm.expect.i1"));
    strip_noinline_attrs(&mut image, true);
    assert!(!image.functions[0].noinline);
    // intrinsics are never touched
    assert!(image.functions[1].noinline);
}

#[test]
fn noinline_kept_without_the_flag() {
    let mut image = Image::new();
    image.functions.push(noinline_fn(b"hot_path"));
    strip_noinline_attrs(&mut image, false);
    assert!(image.functions[0].noinline);
}

#[test]
fn removal_decision_on_plain_values() {
    assert!(noinline_removal_action(b"hot_path", true));
    assert!(!noinline_removal_action(b"hot_path", false));
    assert!(!noinline_removal_action(b"llvm.expect.i1", true));
}
