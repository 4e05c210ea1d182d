use godbolt_core::compiler::{CompilationType, GodBoltCompiler, GodBoltCompilerOutput, GodBoltError};
use godbolt_core::version::{OptionalVersion, Version};

const LIMIT: usize = 2000;
const MANGLED: &str =
    "**Warning:** Mangled sections are filtered by heuristics, consider unmangling relevant sections.";
const TRIMMED: &str =
    "**Warning:** The output was trimmed because the output is over 2000 characters long.";

fn gcc(binary: bool, execute: bool) -> GodBoltCompiler {
    GodBoltCompiler::new(
        "g142".to_string(),
        "x86-64 gcc 14.2".to_string(),
        "c++".to_string(),
        OptionalVersion::present(Version::parse("14.2.0").ok().expect("a version")),
        "amd64".to_string(),
        binary,
        execute,
    )
}

fn output(kind: CompilationType, success: bool, text: &str, name: &str, version: &str) -> GodBoltCompilerOutput {
    GodBoltCompilerOutput {
        output: text.to_string(),
        is_success: success,
        version: if version.is_empty() {
            OptionalVersion::absent()
        } else {
            OptionalVersion::present(Version::parse(version).ok().expect("a version"))
        },
        compiler_name: name.to_string(),
        run_type: kind,
    }
}

#[test]
fn execute_without_support_is_refused() {
    match gcc(true, false).compile_request("int main(){}", "-O2", true) {
        Err(GodBoltError::InvalidOperation(op)) => assert_eq!(op, "execution"),
        _ => panic!("expected a refusal"),
    }
}

#[test]
fn compile_without_binary_support_is_refused() {
    match gcc(false, true).compile_request("int main(){}", "-O2", false) {
        Err(GodBoltError::InvalidOperation(op)) => assert_eq!(op, "compilation"),
        _ => panic!("expected a refusal"),
    }
}

#[test]
fn compile_request_carries_the_submission() {
    let q = gcc(true, true).compile_request("int main(){}", "-O2 -Wall", true).ok().expect("a request");
    assert_eq!(q.compiler_id, "g142");
    assert_eq!(q.source, "int main(){}");
    assert_eq!(q.user_arguments, "-O2 -Wall");
    assert!(q.execute);
    let q = gcc(true, false).compile_request("x", "", false).ok().expect("a request");
    assert!(!q.execute);
}

#[test]
fn compile_output_picks_the_stream() {
    let c = gcc(true, true);
    let ok = c.compile_output(true, true, "ran".to_string(), "diag".to_string());
    assert_eq!(ok.output(), "ran");
    assert!(ok.is_success());
    assert_eq!(ok.compiler_name(), "x86-64 gcc 14.2");
    assert_eq!(ok.version().to_text(), "14.2.0");
    assert_eq!(*ok.run_type(), CompilationType::Execution);
    assert!(ok.run_type().runs());
    let bad = c.compile_output(false, false, "ran".to_string(), "diag".to_string());
    assert_eq!(bad.output(), "diag");
    assert!(!bad.is_success());
    assert_eq!(*bad.run_type(), CompilationType::Assembly);
    assert!(!bad.run_type().runs());
}

#[test]
fn long_output_is_cut_to_1840_characters() {
    let text = "a".repeat(2500);
    let msg = output(CompilationType::Execution, true, &text, "clang 17.0.1", "17.0.1").as_discord_message(LIMIT);
    let expected = format!("**success** (clang 17.0.1)\n```ansi\n{}```\n{}", "a".repeat(1840), TRIMMED);
    assert_eq!(msg, expected);
}

#[test]
fn output_at_threshold_is_kept_whole() {
    let text = "é".repeat(1900);
    let msg = output(CompilationType::Execution, false, &text, "clang", "").as_discord_message(LIMIT);
    assert_eq!(msg, format!("**error** (clang)\n```ansi\n{}```\n", text));
    let longer = "é".repeat(1901);
    let msg = output(CompilationType::Execution, false, &longer, "clang", "").as_discord_message(LIMIT);
    assert_eq!(msg, format!("**error** (clang)\n```ansi\n{}```\n{}", "é".repeat(1840), TRIMMED));
}

#[test]
fn empty_assembly_warns_about_mangling() {
    let msg = output(CompilationType::Assembly, true, "", "x86-64 gcc 14.2", "14.2.0").as_discord_message(LIMIT);
    assert_eq!(msg, format!("**success** (x86-64 gcc 14.2 14.2.0)\n```x86asm\n<no output>```\n{}", MANGLED));
    let blank = output(CompilationType::Assembly, false, " \n\t", "gcc", "").as_discord_message(LIMIT);
    assert_eq!(blank, format!("**error** (gcc)\n```ansi\n \n\t```\n{}", MANGLED));
    let run = output(CompilationType::Execution, true, "", "gcc", "").as_discord_message(LIMIT);
    assert_eq!(run, "**success** (gcc)\n```ansi\n<no output>```\n");
}

#[test]
fn name_holding_the_version_omits_it() {
    let msg = output(CompilationType::Assembly, true, "mov eax, 0", "x86-64 gcc 14.2.0", "14.2.0").as_discord_message(LIMIT);
    assert_eq!(msg, "**success** (x86-64 gcc 14.2.0)\n```x86asm\nmov eax, 0```\n");
    let other = output(CompilationType::Assembly, true, "nop", "x86-64 gcc", "14.2.0").as_discord_message(LIMIT);
    assert_eq!(other, "**success** (x86-64 gcc 14.2.0)\n```x86asm\nnop```\n");
}

#[test]
fn both_warnings_in_order() {
    let text = " ".repeat(1950);
    let msg = output(CompilationType::Assembly, true, &text, "gcc", "").render_message(LIMIT, true);
    assert_eq!(msg, format!("**success** (gcc)\n```x86asm\n{}```\n{}\n{}", " ".repeat(1840), MANGLED, TRIMMED));
}

#[test]
fn render_message_takes_blankness_as_given() {
    let o = output(CompilationType::Assembly, true, "x", "gcc", "");
    assert_eq!(o.render_message(LIMIT, true), format!("**success** (gcc)\n```x86asm\nx```\n{}", MANGLED));
    assert_eq!(o.render_message(LIMIT, false), "**success** (gcc)\n```x86asm\nx```\n");
}

#[test]
fn small_limit_cuts_sooner() {
    let text = "b".repeat(150);
    let msg = output(CompilationType::Execution, true, &text, "gcc", "").as_discord_message(200);
    assert_eq!(msg, format!("**success** (gcc)\n```ansi\n{}```\n{}", text, TRIMMED));
    let tiny = output(CompilationType::Execution, true, "", "gcc", "").as_discord_message(50);
    assert_eq!(tiny, format!("**success** (gcc)\n```ansi\n<no output>```\n{}", TRIMMED));
}
