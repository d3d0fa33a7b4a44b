use pony_playground::branches::Branch;
use pony_playground::driver::split_driver_output;
use pony_playground::emit::CompileOutput;
use pony_playground::page::{extract_docstring, Metadata};
use pony_playground::playpen::Playpen;

#[test]
fn release_track_parses() {
    let b = Branch::parse("release").unwrap();
    assert_eq!(b, Branch::Release);
    assert_eq!(b.name(), "release");
    assert_eq!(b.image(), "ponylang-playpen");
}

#[test]
fn misspelt_track_is_refused() {
    let e = Branch::parse("nightly-typo").unwrap_err();
    assert_eq!(e.name, "nightly-typo");
    assert!(Branch::parse("").is_err());
    assert!(Branch::parse("Release").is_err());
}

#[test]
fn emit_kinds_parse() {
    assert_eq!(CompileOutput::parse("asm").unwrap(), CompileOutput::Asm);
    assert_eq!(CompileOutput::parse("llvm-ir").unwrap(), CompileOutput::Llvm);
    let e = CompileOutput::parse("wasm").unwrap_err();
    assert_eq!(e.name, "wasm");
    assert!(CompileOutput::parse("llvm").is_err());
}

#[test]
fn emit_options_and_lexers() {
    assert_eq!(CompileOutput::Asm.as_opts(), vec!["--pass=asm"]);
    assert_eq!(CompileOutput::Llvm.as_opts(), vec!["--pass=ir"]);
    assert_eq!(CompileOutput::Asm.lexer(), "gas");
    assert_eq!(CompileOutput::Llvm.lexer(), "llvm");
}

#[test]
fn split_at_one_sentinel() {
    let (d, p) = split_driver_output(b"Compiled with: LLVM\n\xff42\n");
    assert_eq!(d, b"Compiled with: LLVM\n".to_vec());
    assert_eq!(p, b"42\n".to_vec());
}

#[test]
fn split_without_sentinel() {
    let (d, p) = split_driver_output(b"error: nothing to run\n");
    assert_eq!(d, b"error: nothing to run\n".to_vec());
    assert!(p.is_empty());
}

#[test]
fn split_empty_stream() {
    let (d, p) = split_driver_output(b"");
    assert!(d.is_empty());
    assert!(p.is_empty());
}

#[test]
fn split_keeps_later_sentinels_in_program_output() {
    let (d, p) = split_driver_output(b"a\xffb\xffc");
    assert_eq!(d, b"a".to_vec());
    assert_eq!(p, b"b\xffc".to_vec());
}

#[test]
fn split_sentinel_at_the_edges() {
    let (d, p) = split_driver_output(b"\xffout");
    assert!(d.is_empty());
    assert_eq!(p, b"out".to_vec());
    let (d, p) = split_driver_output(b"diag\xff");
    assert_eq!(d, b"diag".to_vec());
    assert!(p.is_empty());
}

#[test]
fn parse_output_decodes_both_parts() {
    let (c, o) = Playpen::parse_output(b"Compiled with: LLVM\xff42\n");
    assert_eq!(c, "Compiled with: LLVM");
    assert_eq!(o, "42\n");
}

#[test]
fn parse_output_replaces_invalid_bytes() {
    let (c, o) = Playpen::parse_output(b"ok\xfe\xffx\xc3");
    assert_eq!(c, "ok\u{fffd}");
    assert_eq!(o, "x\u{fffd}");
}

#[test]
fn docstring_is_extracted() {
    let d = extract_docstring("\"\"\"\nA hello world program.\n\"\"\"\nactor Main\n");
    assert_eq!(d, Some("A hello world program.".to_string()));
}

#[test]
fn docstring_is_cut_to_sixty_characters() {
    let long = "x".repeat(75);
    let text = format!("\"\"\"\n{}\n\"\"\"\n", long);
    let d = extract_docstring(&text).unwrap();
    assert_eq!(d.chars().count(), 60);
    assert_eq!(d, "x".repeat(60));
}

#[test]
fn docstring_counts_characters_not_bytes() {
    let text = format!("\"\"\"\n{}\n\"\"\"", "é".repeat(70));
    assert_eq!(extract_docstring(&text).unwrap(), "é".repeat(60));
}

#[test]
fn docstring_absent() {
    assert_eq!(extract_docstring("actor Main\n"), None);
    assert_eq!(extract_docstring("\"\"\"\nunclosed\n"), None);
    assert_eq!(extract_docstring("\"\"\"\ntwo\nlines\n\"\"\""), None);
    assert_eq!(extract_docstring(""), None);
}

#[test]
fn docstring_may_be_empty() {
    assert_eq!(extract_docstring("\"\"\"\n\n\"\"\""), Some(String::new()));
}

#[test]
fn page_metadata() {
    let m = Metadata::defaults();
    assert_eq!(m.title, "Pony Playground");
    assert_eq!(m.description, "Run ponylang code or compile it to ASM/LLVM IR");
    let m = Metadata::for_snippet("hello.pony", "\"\"\"\nSays hello.\n\"\"\"\n");
    assert_eq!(m.title, "hello.pony");
    assert_eq!(m.description, "Says hello.");
    let m = Metadata::for_snippet("bare.pony", "actor Main");
    assert_eq!(m.title, "bare.pony");
    assert_eq!(m.description, "Run ponylang code or compile it to ASM/LLVM IR");
}
