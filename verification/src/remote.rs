//! Failures of a request to the store, and the report made of them for the
//! user.

use vstd::prelude::*;
use vstd::string::StringExecFns;
use crate::advice::{help, help_text, status_code_context, status_context_text};
use crate::emoji::{SLEUTH, WARN};
use crate::text::{decimal, decimal_text, includes, is_single_line, join_lines, line_feeds};
use crate::text::{
    lemma_decimal_is_single_line, lemma_includes_is_transitive, lemma_join_includes_line,
    lemma_join_lines_count, lemma_part_lies_in_one_line,
};

verus! {

/// One error reported by the store: its numeric code and its message.
#[derive(Clone, Debug)]
pub struct ApiError {
    pub code: u16,
    pub message: String,
}

/// The outcome of a request that failed.
#[derive(Clone, Debug)]
pub enum RemoteFailure {
    /// The store answered with an HTTP status and its own errors, in the
    /// order it listed them.
    Structured { status: u16, errors: Vec<ApiError> },
    /// The request did not reach the store or its answer could not be read.
    Transport { description: String },
}

/// The line that reports one error of the store: the code and the message,
/// followed by the suggestion for the code where there is one.
pub open spec fn error_line(code: u16, message: Seq<char>) -> Seq<char> {
    let report = WARN@ + " Error "@ + decimal(code as nat) + ": "@ + message;
    if help_text(code).len() == 0 {
        report
    } else {
        report + " "@ + SLEUTH@ + " "@ + help_text(code)
    }
}

/// The lines for the store's errors, in the order of the errors.
pub open spec fn error_lines(errors: Seq<ApiError>) -> Seq<Seq<char>> {
    errors.map_values(|error: ApiError| error_line(error.code, error.message@))
}

/// The line that explains a status set by the gateway; none for any other
/// status.
pub open spec fn advisory_lines(status: u16) -> Seq<Seq<char>> {
    match status_context_text(status) {
        Some(context) => seq![WARN@ + " "@ + context],
        None => Seq::empty(),
    }
}

/// The lines of the report on an answer of the store: the advisory for the
/// status first, then one line for each error.
pub open spec fn report_lines(status: u16, errors: Seq<ApiError>) -> Seq<Seq<char>> {
    advisory_lines(status) + error_lines(errors)
}

/// The report on a failure.
pub open spec fn report(failure: RemoteFailure) -> Seq<char> {
    match failure {
        RemoteFailure::Structured { status, errors } => join_lines(report_lines(status, errors@)),
        RemoteFailure::Transport { description } => WARN@ + " Error: "@ + description@,
    }
}

/// Writes the line that reports one error.
fn format_error_line(error: &ApiError) -> (line: String)
    ensures
        line@ == error_line(error.code, error.message@),
{
    let mut line = WARN.to_owned();
    line.append(" Error ");
    line.append(decimal_text(error.code).as_str());
    line.append(": ");
    line.append(error.message.as_str());
    let suggestion = help(error.code);
    if !suggestion.is_empty() {
        line.append(" ");
        line.append(SLEUTH);
        line.append(" ");
        line.append(suggestion);
    }
    line
}

/// Turns a failed request into the text shown to the user.
///
/// An answer of the store gives one line per error, in the store's order,
/// after a line of advice where the status is one that the gateway sets. A
/// failure to reach the store gives a single text with its description.
pub fn format_error(e: RemoteFailure) -> (text: String)
    ensures
        text@ == report(e),
{
    match e {
        RemoteFailure::Structured { status, errors } => {
            let mut complete_err = String::new();
            if let Some(context) = status_code_context(status) {
                complete_err.append(WARN);
                complete_err.append(" ");
                complete_err.append(context);
                complete_err.append("\n");
                proof {
                    reveal_strlit("\n");
                    let lines = advisory_lines(status);
                    assert(lines.drop_last() =~= Seq::<Seq<char>>::empty());
                    assert(join_lines(lines.drop_last()) =~= Seq::<char>::empty());
                    assert(complete_err@ =~= join_lines(lines));
                }
            }
            let mut i: usize = 0;
            assert(report_lines(status, errors@.take(0)) =~= advisory_lines(status));
            while i < errors.len()
                invariant
                    i <= errors.len(),
                    complete_err@ == join_lines(report_lines(status, errors@.take(i as int))),
                decreases errors.len() - i,
            {
                let line = format_error_line(&errors[i]);
                complete_err.append(line.as_str());
                complete_err.append("\n");
                proof {
                    reveal_strlit("\n");
                    let shorter = report_lines(status, errors@.take(i as int));
                    let longer = report_lines(status, errors@.take(i + 1));
                    assert(longer.drop_last() =~= shorter);
                    assert(longer.last() == line@);
                    assert(complete_err@ =~= join_lines(longer));
                }
                i = i + 1;
            }
            assert(errors@.take(i as int) =~= errors@);
            complete_err
        },
        RemoteFailure::Transport { description } => {
            let mut text = WARN.to_owned();
            text.append(" Error: ");
            text.append(description.as_str());
            text
        },
    }
}

/// Every error of the store has a line of its own, and the lines follow the
/// order of the errors: the report has as many lines as there are errors,
/// and one more in front where the status is one that the gateway sets.
pub proof fn lemma_one_line_per_error(status: u16, errors: Seq<ApiError>)
    ensures
        status_context_text(status) is None ==> report_lines(status, errors).len()
            == errors.len(),
        status_context_text(status) is Some ==> report_lines(status, errors).len()
            == errors.len() + 1,
        forall|k: int|
            0 <= k < errors.len() ==> #[trigger] report_lines(status, errors)[advisory_lines(
                status,
            ).len() + k] == error_line(errors[k].code, errors[k].message@),
{
}

/// The line of an error whose message holds no line feed holds none.
pub proof fn lemma_error_line_is_single_line(code: u16, message: Seq<char>)
    requires
        is_single_line(message),
    ensures
        is_single_line(error_line(code, message)),
{
    lemma_decimal_is_single_line(code as nat);
    lemma_literals_are_single_line();
}

/// The advisory for a status holds no line feed.
pub proof fn lemma_advisory_is_single_line(status: u16)
    ensures
        forall|k: int|
            0 <= k < advisory_lines(status).len() ==> is_single_line(
                #[trigger] advisory_lines(status)[k],
            ),
{
    lemma_literals_are_single_line();
}

/// Where no message of the store holds a line feed, the text of the report
/// holds exactly one line feed per line: as many as there are errors for
/// an ordinary status, and one more for a status that the gateway sets.
pub proof fn lemma_report_line_count(status: u16, errors: Seq<ApiError>)
    requires
        forall|k: int| 0 <= k < errors.len() ==> is_single_line(#[trigger] errors[k].message@),
    ensures
        line_feeds(join_lines(report_lines(status, errors))) == report_lines(
            status,
            errors,
        ).len(),
        status_context_text(status) is None ==> line_feeds(
            join_lines(report_lines(status, errors)),
        ) == errors.len(),
{
    let lines = report_lines(status, errors);
    lemma_advisory_is_single_line(status);
    assert forall|k: int| 0 <= k < lines.len() implies is_single_line(#[trigger] lines[k]) by {
        let offset = advisory_lines(status).len() as int;
        if k >= offset {
            let at = k - offset;
            assert(is_single_line(errors[at].message@));
            lemma_error_line_is_single_line(errors[at].code, errors[at].message@);
            assert(lines[k] == error_line(errors[at].code, errors[at].message@));
        } else {
            assert(lines[k] == advisory_lines(status)[k]);
        }
    }
    lemma_join_lines_count(lines);
}

/// The line of an error includes the suggestion for its code.
pub proof fn lemma_error_line_includes_help(code: u16, message: Seq<char>)
    ensures
        includes(error_line(code, message), help_text(code)),
{
    let line = error_line(code, message);
    let part = help_text(code);
    let start = line.len() - part.len();
    assert(line.subrange(start, start + part.len()) =~= part);
}

/// The report on an answer with a status that the gateway sets includes the
/// advice for that status.
pub proof fn lemma_report_includes_status_context(status: u16, errors: Seq<ApiError>)
    requires
        status_context_text(status) is Some,
    ensures
        includes(join_lines(report_lines(status, errors)), status_context_text(status)->0),
{
    let lines = report_lines(status, errors);
    let context = status_context_text(status)->0;
    let line = lines[0];
    assert(line == WARN@ + " "@ + context);
    lemma_join_includes_line(lines, 0);
    let start = line.len() - context.len();
    assert(line.subrange(start, start + context.len()) =~= context);
    lemma_includes_is_transitive(join_lines(lines), line, context);
}

/// The report on an answer includes, for each of its errors, the message and
/// the suggestion for the code.
pub proof fn lemma_report_includes_each_error(status: u16, errors: Seq<ApiError>, k: int)
    requires
        0 <= k < errors.len(),
    ensures
        includes(join_lines(report_lines(status, errors)), help_text(errors[k].code)),
        includes(join_lines(report_lines(status, errors)), errors[k].message@),
{
    let lines = report_lines(status, errors);
    let at = advisory_lines(status).len() + k;
    let line = lines[at];
    let message = errors[k].message@;
    assert(line == error_line(errors[k].code, message));
    lemma_join_includes_line(lines, at);
    lemma_error_line_includes_help(errors[k].code, message);
    lemma_includes_is_transitive(join_lines(lines), line, help_text(errors[k].code));
    let report = WARN@ + " Error "@ + decimal(errors[k].code as nat) + ": "@ + message;
    let start = report.len() - message.len();
    assert(line.subrange(start, start + message.len()) =~= message);
    lemma_includes_is_transitive(join_lines(lines), line, message);
}

/// The advice for a status that the gateway sets is given for that status
/// only: in the report on an answer with another status it occurs only
/// where the line of one of the store's errors holds it.
pub proof fn lemma_advice_only_for_its_status(status: u16, errors: Seq<ApiError>, other: u16)
    requires
        status != other,
        status_context_text(other) is Some,
        includes(join_lines(report_lines(status, errors)), status_context_text(other)->0),
    ensures
        exists|k: int|
            0 <= k < errors.len() && includes(
                error_line(#[trigger] errors[k].code, errors[k].message@),
                status_context_text(other)->0,
            ),
{
    let lines = report_lines(status, errors);
    let advice = status_context_text(other)->0;
    let large = "Returned status code 413, Payload Too Large. Please make sure your upload is less than 100MB in size";
    let timeout = "Returned status code 504, Gateway Timeout. Please try again in a few seconds";
    lemma_literals_are_single_line();
    reveal_strlit(
        "Returned status code 413, Payload Too Large. Please make sure your upload is less than 100MB in size",
    );
    reveal_strlit("Returned status code 504, Gateway Timeout. Please try again in a few seconds");
    reveal_strlit("\u{26A0}\u{FE0F}");
    reveal_strlit(" ");
    lemma_part_lies_in_one_line(lines, advice);
    let k = choose|k: int| 0 <= k < lines.len() && includes(#[trigger] lines[k], advice);
    let offset = advisory_lines(status).len() as int;
    if k < offset {
        let line = lines[k];
        let start = choose|start: int|
            0 <= start && start + advice.len() <= line.len() && #[trigger] line.subrange(
                start,
                start + advice.len(),
            ) == advice;
        if status == 413 {
            assert(line == WARN@ + " "@ + large@);
            assert(advice == timeout@);
            assert(forall|i: int| 0 <= i < line.len() ==> line[i] != 'G');
            assert(advice[26] == 'G');
            assert(line.subrange(start, start + advice.len())[26] == line[start + 26]);
        } else {
            assert(line == WARN@ + " "@ + timeout@);
            assert(advice == large@);
            assert(forall|i: int| 0 <= i < line.len() ==> line[i] != 'M');
            assert(advice[90] == 'M');
            assert(line.subrange(start, start + advice.len())[90] == line[start + 90]);
        }
        assert(false);
    }
    let at = k - offset;
    assert(lines[k] == error_line(errors[at].code, errors[at].message@));
}

/// The fixed texts of a report hold no line feed.
proof fn lemma_literals_are_single_line()
    ensures
        is_single_line(WARN@),
        is_single_line(SLEUTH@),
        is_single_line(" Error "@),
        is_single_line(": "@),
        is_single_line(" "@),
        forall|code: u16| is_single_line(#[trigger] help_text(code)),
        forall|status: u16|
            status_context_text(status) is Some ==> is_single_line(
                #[trigger] status_context_text(status)->0,
            ),
{
    reveal_strlit("\u{26A0}\u{FE0F}");
    reveal_strlit("\u{1F575}\u{FE0F}");
    reveal_strlit(" Error ");
    reveal_strlit(": ");
    reveal_strlit(" ");
    reveal_strlit(
        "Your wrangler.toml is likely missing the field \"account_id\", which is required to write to Workers KV.",
    );
    reveal_strlit("Run `wrangler kv:namespace list` to see your existing namespaces with IDs");
    reveal_strlit("Run `wrangler kv:key list` to see your existing keys");
    reveal_strlit("See documentation");
    reveal_strlit("Consider moving this namespace");
    reveal_strlit(
        "Workers KV is a paid feature, please upgrade your account (https://www.cloudflare.com/products/workers-kv/)",
    );
    reveal_strlit(
        "Returned status code 413, Payload Too Large. Please make sure your upload is less than 100MB in size",
    );
    reveal_strlit("Returned status code 504, Gateway Timeout. Please try again in a few seconds");
}

} // verus!
