//! Starting a new project from a template: which tool is run with which
//! arguments, and what the project's configuration is created with. The
//! caller installs the tool, runs the command and writes the configuration.

use vstd::prelude::*;
use vstd::string::StringExecFns;
use std::path::PathBuf;
use crate::emoji::SHEEP;
use crate::target::{Site, TargetType};
use crate::text::texts;

verus! {

/// The tool that copies a template, the account it is published under, and
/// the arguments it is called with.
#[derive(Clone, Debug)]
pub struct GeneratorRun {
    pub tool_name: String,
    pub tool_owner: String,
    pub args: Vec<String>,
}

/// A path of the file system, carried through unread.
#[verifier::external_type_specification]
#[verifier::external_body]
pub struct ExPathBuf(PathBuf);

/// One word of a command line: a text, or a path handed on as it came.
#[derive(Debug)]
pub enum Word {
    Text(String),
    Path(PathBuf),
}

/// A program and its arguments, ready to be started.
#[derive(Debug)]
pub struct CommandLine {
    pub program: Word,
    pub args: Vec<Word>,
}

/// Everything that starting a project does, in order: the generator is run,
/// then the configuration is written below `config_root`, in a directory
/// named after the project.
#[derive(Clone, Debug)]
pub struct Generation {
    pub run: GeneratorRun,
    pub name: String,
    pub target_type: Option<TargetType>,
    pub config_root: String,
    pub site: Option<Site>,
}

/// The arguments of the generator for a project name and a template.
pub open spec fn generator_args(name: Seq<char>, template: Seq<char>) -> Seq<Seq<char>> {
    seq!["generate"@, "--git"@, template, "--name"@, name, "--force"@]
}

/// The word is the given text.
pub open spec fn is_text(word: Word, text: Seq<char>) -> bool {
    word matches Word::Text(held) && held@ == text
}

/// The words are the given texts, in order.
pub open spec fn are_texts(words: Seq<Word>, texts: Seq<Seq<char>>) -> bool {
    &&& words.len() == texts.len()
    &&& forall|k: int| 0 <= k < words.len() ==> is_text(#[trigger] words[k], texts[k])
}

/// The command line that starts a binary with the given arguments: the
/// binary itself, or on Windows the command interpreter `cmd`, told by `/C`
/// to run the binary.
pub open spec fn starts_binary(
    line: CommandLine,
    binary_path: PathBuf,
    args: Seq<Seq<char>>,
    windows: bool,
) -> bool {
    if windows {
        &&& is_text(line.program, "cmd"@)
        &&& line.args@.len() == args.len() + 2
        &&& is_text(line.args@[0], "/C"@)
        &&& line.args@[1] == Word::Path(binary_path)
        &&& are_texts(line.args@.skip(2), args)
    } else {
        &&& line.program == Word::Path(binary_path)
        &&& are_texts(line.args@, args)
    }
}

/// The line that announces the generation of a project.
pub fn generating_message(name: &str) -> (message: String)
    ensures
        message@ == SHEEP@ + " Generating a new worker project with name '"@ + name@ + "'..."@,
{
    let mut message = SHEEP.to_owned();
    message.append(" Generating a new worker project with name '");
    message.append(name);
    message.append("'...");
    message
}

/// The command line that starts the installed generator.
pub fn command(binary_path: PathBuf, args: &Vec<String>, windows: bool) -> (line: CommandLine)
    ensures
        starts_binary(line, binary_path, texts(args@), windows),
{
    let mut words: Vec<Word> = Vec::new();
    let program = if windows {
        words.push(Word::Text("/C".to_owned()));
        words.push(Word::Path(binary_path));
        Word::Text("cmd".to_owned())
    } else {
        Word::Path(binary_path)
    };
    let ghost lead = words@;
    let mut i: usize = 0;
    while i < args.len()
        invariant
            i <= args.len(),
            words@.len() == lead.len() + i,
            words@.take(lead.len() as int) == lead,
            are_texts(words@.skip(lead.len() as int), texts(args@.take(i as int))),
        decreases args.len() - i,
    {
        let ghost before = words@;
        words.push(Word::Text(args[i].clone()));
        proof {
            let tail = words@.skip(lead.len() as int);
            let old_tail = before.skip(lead.len() as int);
            assert(words@.take(lead.len() as int) =~= before.take(lead.len() as int));
            assert forall|k: int| 0 <= k < tail.len() implies is_text(
                #[trigger] tail[k],
                texts(args@.take(i + 1))[k],
            ) by {
                if k < i {
                    assert(tail[k] == old_tail[k]);
                    assert(texts(args@.take(i + 1))[k] == texts(args@.take(i as int))[k]);
                }
            }
        }
        i = i + 1;
    }
    proof {
        assert(args@.take(i as int) =~= args@);
        if windows {
            assert(words@[0] == lead[0] && words@[1] == lead[1]) by {
                assert(words@.take(2)[0] == words@[0] && words@.take(2)[1] == words@[1]);
            }
        } else {
            assert(words@.skip(0) =~= words@);
        }
    }
    CommandLine { program, args: words }
}

/// The generator and the arguments that copy `template` into a new project
/// called `name`.
pub fn run_generate(name: &str, template: &str) -> (run: GeneratorRun)
    ensures
        run.tool_name@ == "cargo-generate"@,
        run.tool_owner@ == "ashleygwilliams"@,
        texts(run.args@) == generator_args(name@, template@),
{
    let mut args: Vec<String> = Vec::new();
    args.push("generate".to_owned());
    args.push("--git".to_owned());
    args.push(template.to_owned());
    args.push("--name".to_owned());
    args.push(name.to_owned());
    args.push("--force".to_owned());
    proof {
        assert(texts(args@) =~= generator_args(name@, template@));
    }
    GeneratorRun {
        tool_name: "cargo-generate".to_owned(),
        tool_owner: "ashleygwilliams".to_owned(),
        args,
    }
}

/// What starting the project `name` from `template` does. With `site` the
/// project serves the static assets under `./public`.
pub fn generate(name: &str, template: &str, target_type: Option<TargetType>, site: bool) -> (plan:
    Generation)
    ensures
        plan.run.tool_name@ == "cargo-generate"@,
        plan.run.tool_owner@ == "ashleygwilliams"@,
        texts(plan.run.args@) == generator_args(name@, template@),
        plan.name@ == name@,
        plan.target_type == target_type,
        plan.config_root@ == "./"@,
        plan.site is Some <==> site,
        plan.site matches Some(generated) ==> generated.bucket@ == "./public"@,
{
    let run = run_generate(name, template);
    let generated_site = if site {
        Some(Site::new("./public"))
    } else {
        None
    };
    Generation {
        run,
        name: name.to_owned(),
        target_type,
        config_root: "./".to_owned(),
        site: generated_site,
    }
}

} // verus!
