//! The configuration unit that the commands read: account identity and the
//! namespace bindings declared for it.

use vstd::prelude::*;
use std::collections::HashMap;

verus! {

/// How a project is built before it is uploaded.
#[derive(Clone, Copy, Debug, PartialEq, Eq, Structural)]
pub enum TargetType {
    JavaScript,
    Rust,
    Webpack,
}

/// A directory of static assets served with the project.
#[derive(Clone, Debug)]
pub struct Site {
    pub bucket: String,
}

impl Site {
    /// A site that serves the given directory.
    pub fn new(bucket: &str) -> (site: Site)
        ensures
            site.bucket@ == bucket@,
    {
        Site { bucket: bucket.to_owned() }
    }
}

/// One configured binding: the local name `binding` stands for the remote
/// namespace `id`.
#[derive(Clone, Debug)]
pub struct KvNamespace {
    pub id: String,
    pub binding: String,
    pub bucket: Option<String>,
}

/// One deployable configuration unit.
#[derive(Clone, Debug)]
pub struct Target {
    pub account_id: String,
    pub kv_namespaces: Option<Vec<KvNamespace>>,
    pub name: String,
    pub target_type: TargetType,
    pub route: Option<String>,
    pub routes: Option<HashMap<String, String>>,
    pub webpack_config: Option<String>,
    pub zone_id: Option<String>,
    pub site: Option<Site>,
}

/// The names of a list of bindings, in order.
pub open spec fn names_of(bindings: Seq<KvNamespace>) -> Seq<Seq<char>> {
    bindings.map_values(|namespace: KvNamespace| namespace.binding@)
}

impl Target {
    /// The configured bindings in declaration order; empty where none are
    /// configured.
    pub open spec fn bindings(&self) -> Seq<KvNamespace> {
        match self.kv_namespaces {
            Some(namespaces) => namespaces@,
            None => Seq::empty(),
        }
    }

    /// The binding names in declaration order.
    pub open spec fn binding_names(&self) -> Seq<Seq<char>> {
        names_of(self.bindings())
    }
}

} // verus!
