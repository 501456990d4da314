//! Suggestions attached to the store's numeric error codes.

use vstd::prelude::*;

verus! {

/// The suggestion text for an error code, as characters; empty where the
/// code has no suggestion.
pub open spec fn help_text(error_code: u16) -> Seq<char> {
    if error_code == 7003 || error_code == 7000 {
        "Your wrangler.toml is likely missing the field \"account_id\", which is required to write to Workers KV."@
    } else if error_code == 10010 || error_code == 10011 || error_code == 10012
        || error_code == 10013 || error_code == 10014 || error_code == 10018 {
        "Run `wrangler kv:namespace list` to see your existing namespaces with IDs"@
    } else if error_code == 10009 {
        "Run `wrangler kv:key list` to see your existing keys"@
    } else if error_code == 10022 || error_code == 10024 || error_code == 10030 {
        "See documentation"@
    } else if error_code == 10021 || error_code == 10035 || error_code == 10038 {
        "Consider moving this namespace"@
    } else if error_code == 10017 || error_code == 10026 {
        "Workers KV is a paid feature, please upgrade your account (https://www.cloudflare.com/products/workers-kv/)"@
    } else {
        Seq::empty()
    }
}

/// What a status code set by the gateway in front of the store means, for
/// the codes that come without an error code of the store.
pub open spec fn status_context_text(status: u16) -> Option<Seq<char>> {
    if status == 413 {
        Some(
            "Returned status code 413, Payload Too Large. Please make sure your upload is less than 100MB in size"@,
        )
    } else if status == 504 {
        Some("Returned status code 504, Gateway Timeout. Please try again in a few seconds"@)
    } else {
        None
    }
}

/// The advisory for a status code that the gateway sets itself, if the
/// status is one of them.
pub fn status_code_context(status: u16) -> (context: Option<&'static str>)
    ensures
        context is Some <==> status_context_text(status) is Some,
        context matches Some(text) ==> Some(text@) == status_context_text(status),
{
    match status {
        413 => Some(
            "Returned status code 413, Payload Too Large. Please make sure your upload is less than 100MB in size",
        ),
        504 => Some("Returned status code 504, Gateway Timeout. Please try again in a few seconds"),
        _ => None,
    }
}

/// Looks up the suggestion for an error code returned by the store.
pub fn help(error_code: u16) -> (suggestion: &'static str)
    ensures
        suggestion@ == help_text(error_code),
{
    match error_code {
        7003 | 7000 => {
            "Your wrangler.toml is likely missing the field \"account_id\", which is required to write to Workers KV."
        },
        10010 | 10011 | 10012 | 10013 | 10014 | 10018 => {
            "Run `wrangler kv:namespace list` to see your existing namespaces with IDs"
        },
        10009 => "Run `wrangler kv:key list` to see your existing keys",
        10022 | 10024 | 10030 => "See documentation",
        10021 | 10035 | 10038 => "Consider moving this namespace",
        10017 | 10026 => "Workers KV is a paid feature, please upgrade your account (https://www.cloudflare.com/products/workers-kv/)",
        _ => {
            proof {
                reveal_strlit("");
            }
            assert(""@ =~= Seq::<char>::empty());
            ""
        },
    }
}

} // verus!
