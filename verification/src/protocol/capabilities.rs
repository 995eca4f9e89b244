//! What a script declares it can do.
use vstd::prelude::*;

use crate::text::copy_strings;

verus! {

/// The role a script plays for media.
#[derive(Debug, Clone, Copy, PartialEq, Eq, Structural)]
pub enum Type {
    Source,
    Transform,
    Filter,
}

impl Default for Type {
    /// A script is a source unless it says otherwise.
    fn default() -> (r: Type)
        ensures
            r == Type::Source,
    {
        Type::Source
    }
}

/// Whether a script accepts a query.
#[derive(Debug, Clone, Copy, PartialEq, Eq, Structural)]
pub struct Query {
    pub set: bool,
}

impl Default for Query {
    /// No query.
    fn default() -> (r: Query)
        ensures
            r.set == false,
    {
        Query { set: false }
    }
}

/// What a script declares: its role with an optional batch size, whether it takes a query,
/// and the names of the actions it offers.
#[derive(Debug)]
pub struct Capabilities {
    pub media: (Type, Option<u64>),
    pub query: Query,
    pub actions: Vec<String>,
}

impl Clone for Capabilities {
    /// A copy with the same role, query and actions.
    fn clone(&self) -> (r: Capabilities)
        ensures
            r.media == self.media,
            r.query == self.query,
            r.actions@ == self.actions@,
    {
        let actions = copy_strings(&self.actions);
        Capabilities { media: self.media, query: self.query, actions }
    }
}

impl Default for Capabilities {
    /// A source with no batch size, no query and no actions.
    fn default() -> (r: Capabilities)
        ensures
            r.media == (Type::Source, None::<u64>),
            r.query.set == false,
            r.actions@.len() == 0,
    {
        Capabilities { media: (Type::Source, None), query: Query { set: false }, actions: Vec::new() }
    }
}

/// The method that asks a script for its capabilities.
pub const CAPABILITIES_METHOD: &'static str = "capabilities/capabilities";

/// The (empty) parameters of a capabilities request.
#[derive(Debug, Clone, Copy)]
pub struct CapabilitiesRequest {}

} // verus!
