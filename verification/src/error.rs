//! The ways a command can fail before it reaches the store, each with the
//! text shown to the user.

use vstd::prelude::*;
use vstd::string::StringExecFns;
use crate::text::texts;

verus! {

/// A field name between double quotes.
pub open spec fn quoted(name: Seq<char>) -> Seq<char> {
    "\""@ + name + "\""@
}

/// The quoted field names, separated by a comma and a space.
pub open spec fn quoted_list(fields: Seq<Seq<char>>) -> Seq<char>
    decreases fields.len(),
{
    if fields.len() == 0 {
        Seq::empty()
    } else if fields.len() == 1 {
        quoted(fields[0])
    } else {
        quoted_list(fields.drop_last()) + ", "@ + quoted(fields.last())
    }
}

/// Required configuration is missing; `missing_fields` names every absent
/// field, in the order the fields are checked.
#[derive(Clone, Debug)]
pub struct ConfigError {
    pub missing_fields: Vec<String>,
}

impl ConfigError {
    /// The names of the missing fields.
    pub open spec fn fields(&self) -> Seq<Seq<char>> {
        texts(self.missing_fields@)
    }

    /// What `message` returns.
    pub open spec fn message_text(&self) -> Seq<char> {
        "Your wrangler.toml is missing the following field(s): ["@ + quoted_list(self.fields())
            + "]"@
    }

    /// The text shown to the user: every missing field, quoted, in one list.
    pub fn message(&self) -> (text: String)
        ensures
            text@ == self.message_text(),
    {
        let mut text = "Your wrangler.toml is missing the following field(s): [".to_owned();
        let ghost head = text@;
        let ghost fields = self.fields();
        let mut i: usize = 0;
        while i < self.missing_fields.len()
            invariant
                i <= self.missing_fields.len(),
                fields == self.fields(),
                fields.len() == self.missing_fields.len(),
                text@ == head + quoted_list(fields.take(i as int)),
            decreases self.missing_fields.len() - i,
        {
            let ghost before = text@;
            if i > 0 {
                text.append(", ");
            }
            text.append("\"");
            text.append(self.missing_fields[i].as_str());
            text.append("\"");
            proof {
                let shorter = fields.take(i as int);
                let longer = fields.take(i + 1);
                assert(longer.drop_last() =~= shorter);
                assert(longer.last() == self.missing_fields[i as int]@);
                assert(shorter.len() == 0 ==> quoted_list(shorter) =~= Seq::<char>::empty());
                assert(text@ =~= head + quoted_list(longer));
            }
            i = i + 1;
        }
        proof {
            assert(fields.take(i as int) =~= fields);
        }
        text.append("]");
        text
    }
}

/// A binding name could not be turned into a namespace id.
#[derive(Clone, Debug)]
pub enum ResolveError {
    /// Some binding name is configured more than once in the target, so no
    /// lookup is attempted. `binding` is the first name found to repeat.
    DuplicateBinding { binding: String, target: String },
    /// No configured binding has the requested name. `binding` is the name
    /// that was asked for.
    NotFound { binding: String, target: String },
}

impl ResolveError {
    /// What `message` returns.
    pub open spec fn message_text(&self) -> Seq<char> {
        match self {
            ResolveError::DuplicateBinding { binding, target } => "Namespace binding \""@
                + binding@ + "\" is duplicated in \""@ + target@ + "\""@,
            ResolveError::NotFound { binding, target } => "Namespace binding \""@ + binding@
                + "\" not found in \""@ + target@ + "\""@,
        }
    }

    /// The text shown to the user, naming the binding and the target.
    pub fn message(&self) -> (text: String)
        ensures
            text@ == self.message_text(),
    {
        let mut text = "Namespace binding \"".to_owned();
        match self {
            ResolveError::DuplicateBinding { binding, target } => {
                text.append(binding.as_str());
                text.append("\" is duplicated in \"");
                text.append(target.as_str());
            },
            ResolveError::NotFound { binding, target } => {
                text.append(binding.as_str());
                text.append("\" not found in \"");
                text.append(target.as_str());
            },
        }
        text.append("\"");
        text
    }
}

/// The answer to a yes/no prompt began with neither "y" nor "n".
#[derive(Clone, Copy, Debug, PartialEq, Eq, Structural)]
pub struct InputError;

impl InputError {
    /// The text shown to the user.
    pub fn message(&self) -> (text: String)
        ensures
            text@ == "Response must either be \"y\" for yes or \"n\" for no"@,
    {
        "Response must either be \"y\" for yes or \"n\" for no".to_owned()
    }
}

} // verus!
