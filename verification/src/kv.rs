//! Checks on a target made before any request is sent: required fields, and
//! the lookup of a namespace id by binding name.

use vstd::prelude::*;
use vstd::hash_set::StringHashSet;
use crate::error::{ConfigError, ResolveError};
use crate::target::{names_of, KvNamespace, Target};

verus! {

/// Some name occurs at two different positions.
pub open spec fn has_duplicates(names: Seq<Seq<char>>) -> bool {
    exists|i: int, j: int| 0 <= i < j < names.len() && names[i] == names[j]
}

/// `index` is the first position whose binding has the given name.
pub open spec fn is_first_match(bindings: Seq<KvNamespace>, name: Seq<char>, index: int) -> bool {
    &&& 0 <= index < bindings.len()
    &&& bindings[index].binding@ == name
    &&& forall|k: int| 0 <= k < index ==> bindings[k].binding@ != name
}

/// Some binding has the given name.
pub open spec fn is_bound(bindings: Seq<KvNamespace>, name: Seq<char>) -> bool {
    exists|k: int| 0 <= k < bindings.len() && bindings[k].binding@ == name
}

/// The fields that must be present before a request is sent and are not, in
/// the order they are checked.
pub open spec fn missing_fields(target: &Target) -> Seq<Seq<char>> {
    if target.account_id@.len() == 0 {
        seq!["account_id"@]
    } else {
        Seq::empty()
    }
}

/// `at` is the first position whose name has occurred before it.
pub open spec fn is_first_repeat_at(names: Seq<Seq<char>>, at: int) -> bool {
    &&& 0 < at < names.len()
    &&& exists|i: int| 0 <= i < at && names[i] == names[at]
    &&& forall|a: int, b: int| 0 <= a < b < at ==> names[a] != names[b]
}

/// `name` is the first name found to repeat when the names are read in
/// order.
pub open spec fn is_first_repeat(names: Seq<Seq<char>>, name: Seq<char>) -> bool {
    exists|at: int| is_first_repeat_at(names, at) && names[at] == name
}

/// The first binding name that is configured a second time, if any is.
pub fn first_duplicate_binding(target: &Target) -> (found: Option<String>)
    ensures
        found is Some <==> has_duplicates(target.binding_names()),
        found matches Some(name) ==> is_first_repeat(target.binding_names(), name@),
{
    let ghost names = target.binding_names();
    let mut binding_names = StringHashSet::new();
    if let Some(namespaces) = &target.kv_namespaces {
        let mut i: usize = 0;
        while i < namespaces.len()
            invariant
                i <= namespaces.len(),
                target.kv_namespaces == Some(*namespaces),
                names == target.binding_names(),
                names.len() == namespaces.len(),
                forall|k: int| 0 <= k < i ==> binding_names@.contains(#[trigger] names[k]),
                forall|name: Seq<char>| #[trigger]
                    binding_names@.contains(name) ==> exists|k: int|
                        0 <= k < i && names[k] == name,
                forall|a: int, b: int| 0 <= a < b < i ==> names[a] != names[b],
            decreases namespaces.len() - i,
        {
            let namespace = &namespaces[i];
            assert(names[i as int] == namespace.binding@);
            if binding_names.contains(namespace.binding.as_str()) {
                let name = namespace.binding.clone();
                proof {
                    let k = choose|k: int| 0 <= k < i && names[k] == names[i as int];
                    assert(0 <= k < i < names.len() && names[k] == names[i as int]);
                    assert(is_first_repeat_at(names, i as int) && names[i as int] == name@);
                }
                return Some(name);
            } else {
                binding_names.insert(namespace.binding.clone());
            }
            i = i + 1;
        }
    }
    None
}

/// Whether two bindings of the target share a name.
pub fn check_duplicate_namespaces(target: &Target) -> (duplicated: bool)
    ensures
        duplicated == has_duplicates(target.binding_names()),
{
    first_duplicate_binding(target).is_some()
}

/// The namespace id that a binding name stands for.
///
/// A target in which any binding name is configured twice is rejected
/// whatever name is asked for, and the error names the first name found to
/// repeat. Otherwise the id of the first binding with the requested name is
/// returned, and the lookup fails if there is none.
pub fn get_namespace_id(target: &Target, binding: &str) -> (result: Result<String, ResolveError>)
    ensures
        has_duplicates(target.binding_names()) <==> result matches Err(
            ResolveError::DuplicateBinding { .. },
        ),
        !has_duplicates(target.binding_names()) && is_bound(target.bindings(), binding@)
            <==> result is Ok,
        !has_duplicates(target.binding_names()) && !is_bound(target.bindings(), binding@)
            <==> result matches Err(ResolveError::NotFound { .. }),
        result matches Ok(id) ==> exists|index: int|
            is_first_match(target.bindings(), binding@, index) && id@
                == target.bindings()[index].id@,
        result matches Err(ResolveError::DuplicateBinding { binding: named, target: owner })
            ==> is_first_repeat(target.binding_names(), named@) && owner@ == target.name@,
        result matches Err(ResolveError::NotFound { binding: asked, target: owner }) ==> asked@
            == binding@ && owner@ == target.name@,
{
    if let Some(named) = first_duplicate_binding(target) {
        return Err(ResolveError::DuplicateBinding { binding: named, target: target.name.clone() });
    }
    let wanted = binding.to_owned();
    if let Some(namespaces) = &target.kv_namespaces {
        let mut i: usize = 0;
        while i < namespaces.len()
            invariant
                i <= namespaces.len(),
                wanted@ == binding@,
                !has_duplicates(target.binding_names()),
                target.kv_namespaces == Some(*namespaces),
                forall|k: int| 0 <= k < i ==> namespaces@[k].binding@ != binding@,
            decreases namespaces.len() - i,
        {
            let namespace = &namespaces[i];
            if namespace.binding == wanted {
                assert(is_first_match(target.bindings(), binding@, i as int));
                return Ok(namespace.id.clone());
            }
            i = i + 1;
        }
    }
    Err(ResolveError::NotFound { binding: wanted, target: target.name.clone() })
}

/// At most one name is the first to repeat, so the name in a duplicate
/// error is determined by the target.
pub proof fn lemma_first_repeat_is_unique(names: Seq<Seq<char>>, one: Seq<char>, other: Seq<char>)
    requires
        is_first_repeat(names, one),
        is_first_repeat(names, other),
    ensures
        one == other,
{
    let at = choose|at: int| is_first_repeat_at(names, at) && names[at] == one;
    let second = choose|at: int| is_first_repeat_at(names, at) && names[at] == other;
    if at < second {
        let i = choose|i: int| 0 <= i < at && names[i] == names[at];
        assert(0 <= i < at < second);
    } else if second < at {
        let i = choose|i: int| 0 <= i < second && names[i] == names[second];
        assert(0 <= i < second < at);
    }
}

/// A name is the first to repeat only in a target that has duplicates, and
/// it is then the name of at least two bindings.
pub proof fn lemma_first_repeat_is_shared(names: Seq<Seq<char>>, name: Seq<char>)
    requires
        is_first_repeat(names, name),
    ensures
        has_duplicates(names),
        exists|i: int, j: int| 0 <= i < j < names.len() && names[i] == name && names[j] == name,
{
    let at = choose|at: int| is_first_repeat_at(names, at) && names[at] == name;
    let i = choose|i: int| 0 <= i < at && names[i] == names[at];
    assert(0 <= i < at < names.len() && names[i] == names[at]);
    assert(0 <= i < at < names.len() && names[i] == name && names[at] == name);
}

/// In a target without duplicate names, the name of each binding finds that
/// binding and no other: the lookup of the name gives that binding's id.
pub proof fn lemma_binding_resolves_to_itself(bindings: Seq<KvNamespace>, at: int)
    requires
        !has_duplicates(names_of(bindings)),
        0 <= at < bindings.len(),
    ensures
        is_bound(bindings, bindings[at].binding@),
        is_first_match(bindings, bindings[at].binding@, at),
        forall|index: int| #[trigger]
            is_first_match(bindings, bindings[at].binding@, index) ==> index == at,
{
    let names = names_of(bindings);
    assert forall|k: int| 0 <= k < at implies bindings[k].binding@ != bindings[at].binding@ by {
        assert(names[k] == bindings[k].binding@ && names[at] == bindings[at].binding@);
    }
}

/// A name that two bindings share makes the target ambiguous, whatever else
/// it holds.
pub proof fn lemma_shared_name_is_duplicate(bindings: Seq<KvNamespace>, first: int, second: int)
    requires
        0 <= first < bindings.len(),
        0 <= second < bindings.len(),
        first != second,
        bindings[first].binding@ == bindings[second].binding@,
    ensures
        has_duplicates(names_of(bindings)),
{
    let names = names_of(bindings);
    if first < second {
        assert(0 <= first < second < names.len() && names[first] == names[second]);
    } else {
        assert(0 <= second < first < names.len() && names[second] == names[first]);
    }
}

/// Checks that every field needed to reach the store is present, and names
/// all that are missing at once.
pub fn validate_target(target: &Target) -> (result: Result<(), ConfigError>)
    ensures
        result is Ok <==> target.account_id@.len() > 0,
        result matches Err(error) ==> error.fields() == missing_fields(target),
        result matches Err(error) ==> error.fields() == seq!["account_id"@],
{
    let mut missing: Vec<String> = Vec::new();
    if target.account_id.as_str().is_empty() {
        missing.push("account_id".to_owned());
    }
    let error = ConfigError { missing_fields: missing };
    assert(error.fields() =~= missing_fields(target));
    if error.missing_fields.len() > 0 {
        Err(error)
    } else {
        Ok(())
    }
}

} // verus!
