//! The resolved configuration of one entry point: the declarative options a
//! user may attach to the annotation, with their defaults filled in.

use vstd::prelude::*;

verus! {

/// The quota applied to skipping unrecognized trailing payload fields when
/// the configuration does not set one.
pub fn default_skipping_quota() -> (r: Option<usize>)
    ensures
        r == Some(10000usize),
{
    Some(10000)
}

/// The mathematical model of a resolved configuration.
pub struct AttrsView {
    pub name: Option<Seq<char>>,
    pub guard: Option<Seq<char>>,
    pub manual_reply: bool,
    pub composite: bool,
    pub hidden: bool,
    pub decoding_quota: Option<usize>,
    pub skipping_quota: Option<usize>,
    pub debug: bool,
}

/// The options attached to an entry point, resolved once from their raw
/// textual form and immutable thereafter.
pub struct ExportAttributes {
    /// External name override; `None` falls back to the function's own
    /// identifier.
    pub name: Option<String>,
    /// Identifier of a synchronous access-control function run before the
    /// body.
    pub guard: Option<String>,
    /// Suppress automatic result encoding; the body emits its own reply.
    pub manual_reply: bool,
    /// Query entry point permitted to call other entry points.
    pub composite: bool,
    /// Suppress the public-interface annotation on the original function.
    pub hidden: bool,
    /// Bound on the total cost of decoding recognized arguments.
    pub decoding_quota: Option<usize>,
    /// Bound on the cost of skipping unrecognized trailing payload fields.
    pub skipping_quota: Option<usize>,
    /// Print decoding diagnostics at runtime.
    pub debug: bool,
}

impl View for ExportAttributes {
    type V = AttrsView;

    open spec fn view(&self) -> AttrsView {
        AttrsView {
            name: match self.name {
                Some(ref s) => Some(s@),
                None => None,
            },
            guard: match self.guard {
                Some(ref s) => Some(s@),
                None => None,
            },
            manual_reply: self.manual_reply,
            composite: self.composite,
            hidden: self.hidden,
            decoding_quota: self.decoding_quota,
            skipping_quota: self.skipping_quota,
            debug: self.debug,
        }
    }
}

impl Default for ExportAttributes {
    /// The defaults used when an option is omitted from the configuration:
    /// no name override, no guard, no decoding bound, a skipping quota of
    /// 10000, and every flag off.
    fn default() -> (r: Self)
        ensures
            r@.name is None,
            r@.guard is None,
            !r@.manual_reply,
            !r@.composite,
            !r@.hidden,
            r@.decoding_quota is None,
            r@.skipping_quota == Some(10000usize),
            !r@.debug,
    {
        ExportAttributes {
            name: None,
            guard: None,
            manual_reply: false,
            composite: false,
            hidden: false,
            decoding_quota: None,
            skipping_quota: default_skipping_quota(),
            debug: false,
        }
    }
}

} // verus!
