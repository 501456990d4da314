//! The answer to a yes/no question asked before something is deleted.

use vstd::prelude::*;
use vstd::string::StringExecFns;
use crate::error::InputError;

verus! {

/// Whether a character has the Unicode property White_Space: the controls
/// from tab to carriage return, the space, next line, the no-break space,
/// the ogham space mark, the spaces from en quad to hair space, the line
/// and paragraph separators, the narrow no-break space, the medium
/// mathematical space and the ideographic space.
pub open spec fn char_is_whitespace(c: char) -> bool {
    let code = c as u32;
    ||| 0x09 <= code <= 0x0D
    ||| code == 0x20
    ||| code == 0x85
    ||| code == 0xA0
    ||| code == 0x1680
    ||| 0x2000 <= code <= 0x200A
    ||| code == 0x2028
    ||| code == 0x2029
    ||| code == 0x202F
    ||| code == 0x205F
    ||| code == 0x3000
}

/// The first character of a text that is not whitespace.
pub open spec fn first_visible(text: Seq<char>) -> Option<char>
    decreases text.len(),
{
    if text.len() == 0 {
        None
    } else if char_is_whitespace(text[0]) {
        first_visible(text.drop_first())
    } else {
        Some(text[0])
    }
}

/// What an answer that begins with the given character means: yes for `y`,
/// no for `n`, in either case; nothing for any other beginning or none.
pub open spec fn answer_of(first: Option<char>) -> Option<bool> {
    match first {
        Some(c) => if c == 'y' || c == 'Y' {
            Some(true)
        } else if c == 'n' || c == 'N' {
            Some(false)
        } else {
            None
        },
        None => None,
    }
}

/// Calls `char::is_whitespace`, which tells whether a character has the
/// property White_Space; the contract lists the characters that have it.
#[verifier::external_body]
fn is_whitespace(c: char) -> (whitespace: bool)
    ensures
        whitespace == char_is_whitespace(c),
{
    c.is_whitespace()
}

/// Whitespace in front of a text does not change its first visible
/// character.
pub proof fn lemma_first_visible_skips_whitespace(text: Seq<char>, count: int)
    requires
        0 <= count <= text.len(),
        forall|k: int| 0 <= k < count ==> char_is_whitespace(#[trigger] text[k]),
    ensures
        first_visible(text) == first_visible(text.skip(count)),
    decreases count,
{
    if count == 0 {
        assert(text.skip(0) =~= text);
    } else {
        let rest = text.drop_first();
        assert forall|k: int| 0 <= k < count - 1 implies char_is_whitespace(
            #[trigger] rest[k],
        ) by {
            assert(rest[k] == text[k + 1]);
        }
        lemma_first_visible_skips_whitespace(rest, count - 1);
        assert(rest.skip(count - 1) =~= text.skip(count));
    }
}

/// The line shown to ask the question: the prompt and the two answers that
/// are accepted.
pub fn confirmation_prompt(prompt_string: &str) -> (line: String)
    ensures
        line@ == prompt_string@ + " [y/n]"@,
{
    let mut line = prompt_string.to_owned();
    line.append(" [y/n]");
    line
}

/// Decides an answer by the character it begins with.
pub fn read_answer(first: Option<char>) -> (result: Result<bool, InputError>)
    ensures
        result is Ok <==> answer_of(first) is Some,
        result matches Ok(confirmed) ==> answer_of(first) == Some(confirmed),
{
    match first {
        Some(c) => {
            if c == 'y' || c == 'Y' {
                Ok(true)
            } else if c == 'n' || c == 'N' {
                Ok(false)
            } else {
                Err(InputError)
            }
        },
        None => Err(InputError),
    }
}

/// Decides the answer typed at the prompt. Whitespace is ignored, case is
/// ignored, and only the first character counts: an answer that begins
/// with `y` confirms, one that begins with `n` declines, and anything else,
/// an empty answer too, is an error.
pub fn confirm(response: &str) -> (result: Result<bool, InputError>)
    ensures
        result is Ok <==> answer_of(first_visible(response@)) is Some,
        result matches Ok(confirmed) ==> answer_of(first_visible(response@)) == Some(confirmed),
{
    for c in it: response.chars()
        invariant
            it.seq() == response@,
            forall|k: int| 0 <= k < it.index() ==> char_is_whitespace(#[trigger] response@[k]),
    {
        if !is_whitespace(c) {
            proof {
                lemma_first_visible_skips_whitespace(response@, it.index() as int);
            }
            return read_answer(Some(c));
        }
    }
    proof {
        lemma_first_visible_skips_whitespace(response@, response@.len() as int);
    }
    read_answer(None)
}

} // verus!
