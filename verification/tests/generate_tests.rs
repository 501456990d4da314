use wrangler_core::emoji::SHEEP;
use std::path::PathBuf;
use wrangler_core::generate::{command, generate, generating_message, run_generate, Word};
use wrangler_core::target::TargetType;

fn words(list: &[&str]) -> Vec<String> {
    list.iter().map(|word| word.to_string()).collect()
}

#[test]
fn generator_is_called_with_template_and_name() {
    let run = run_generate("my-worker", "https://github.com/cloudflare/worker-template");
    assert_eq!(run.tool_name, "cargo-generate");
    assert_eq!(run.tool_owner, "ashleygwilliams");
    assert_eq!(
        run.args,
        words(&[
            "generate",
            "--git",
            "https://github.com/cloudflare/worker-template",
            "--name",
            "my-worker",
            "--force"
        ])
    );
}

fn shown(words: &[Word]) -> Vec<String> {
    words
        .iter()
        .map(|word| match word {
            Word::Text(text) => format!("text:{}", text),
            Word::Path(path) => format!("path:{}", path.display()),
        })
        .collect()
}

#[test]
fn command_runs_the_binary_directly() {
    let args = words(&["generate", "--force"]);
    let line = command(PathBuf::from("/home/user/.cache/cargo-generate"), &args, false);
    assert!(matches!(&line.program, Word::Path(path) if path == &PathBuf::from("/home/user/.cache/cargo-generate")));
    assert_eq!(shown(&line.args), words(&["text:generate", "text:--force"]));
}

#[test]
fn command_goes_through_the_interpreter_on_windows() {
    let args = words(&["generate", "--force"]);
    let line = command(PathBuf::from("C:\\bin\\cargo-generate.exe"), &args, true);
    assert!(matches!(&line.program, Word::Text(text) if text == "cmd"));
    assert_eq!(
        shown(&line.args),
        words(&["text:/C", "path:C:\\bin\\cargo-generate.exe", "text:generate", "text:--force"])
    );
}

#[test]
fn command_without_arguments() {
    let none: Vec<String> = Vec::new();
    let direct = command(PathBuf::from("tool"), &none, false);
    assert!(matches!(&direct.program, Word::Path(path) if path == &PathBuf::from("tool")));
    assert!(direct.args.is_empty());
    let through = command(PathBuf::from("tool"), &none, true);
    assert!(matches!(&through.program, Word::Text(text) if text == "cmd"));
    assert_eq!(shown(&through.args), words(&["text:/C", "path:tool"]));
}

#[test]
fn command_keeps_the_full_generator_call() {
    let run = run_generate("my-worker", "template");
    let line = command(PathBuf::from("bin/cargo-generate"), &run.args, false);
    assert_eq!(
        shown(&line.args),
        words(&["text:generate", "text:--git", "text:template", "text:--name", "text:my-worker", "text:--force"])
    );
}

#[test]
fn generation_without_site() {
    let plan = generate("my-worker", "template", Some(TargetType::Rust), false);
    assert_eq!(plan.name, "my-worker");
    assert_eq!(plan.target_type, Some(TargetType::Rust));
    assert_eq!(plan.config_root, "./");
    assert!(plan.site.is_none());
    assert_eq!(plan.run.tool_name, "cargo-generate");
    assert_eq!(plan.run.args, words(&["generate", "--git", "template", "--name", "my-worker", "--force"]));
}

#[test]
fn generation_with_site_serves_public() {
    let plan = generate("my-site", "template", None, true);
    assert_eq!(plan.target_type, None);
    assert_eq!(plan.site.unwrap().bucket, "./public");
}

#[test]
fn message_names_the_project() {
    assert_eq!(
        generating_message("my-worker"),
        format!("{} Generating a new worker project with name 'my-worker'...", SHEEP)
    );
    assert_eq!(SHEEP, "\u{1F411}");
}
