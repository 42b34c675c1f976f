//! Located diagnostics. A diagnostic is terminal for the entry point being
//! transformed: nothing is generated for it, though other entry points in the
//! same compilation are unaffected.

use crate::method::MethodType;
use vstd::prelude::*;

verus! {

/// Where in the annotated source a diagnostic points. The transformation
/// works on a model of the source, so a location is symbolic; the caller
/// that owns the real source spans maps it back.
#[derive(Copy, Clone, Debug, PartialEq, Eq, Structural)]
pub enum Location {
    /// The annotation site itself.
    CallSite,
    /// The raw configuration attached to the annotation.
    Attribute,
    /// The parameter at this zero-based position.
    Parameter(usize),
    /// The generics clause of the signature.
    Generics,
}

/// The mathematical model of a diagnostic.
pub struct DiagView {
    pub location: Location,
    pub message: Seq<char>,
}

/// A located, human-readable error that halts transformation of one entry
/// point.
#[derive(Debug)]
pub struct Diagnostic {
    pub location: Location,
    pub message: String,
}

impl View for Diagnostic {
    type V = DiagView;

    open spec fn view(&self) -> DiagView {
        DiagView { location: self.location, message: self.message@ }
    }
}

/// The message raised at a receiver-style parameter.
pub open spec fn spec_receiver_msg(m: MethodType) -> Seq<char> {
    "#["@ + m.spec_name() + "] cannot be above functions with `self` as a parameter."@
}

pub fn receiver_msg(m: &MethodType) -> (r: String)
    ensures
        r@ == spec_receiver_msg(*m),
{
    let mut s = String::from_str("#[");
    s.append(m.name());
    s.append("] cannot be above functions with `self` as a parameter.");
    s
}

/// The message raised at a non-empty generics clause.
pub open spec fn spec_generics_msg(m: MethodType) -> Seq<char> {
    "#["@ + m.spec_name() + "] must be above a function with no generic parameters."@
}

pub fn generics_msg(m: &MethodType) -> (r: String)
    ensures
        r@ == spec_generics_msg(*m),
{
    let mut s = String::from_str("#[");
    s.append(m.name());
    s.append("] must be above a function with no generic parameters.");
    s
}

/// The message raised when a lifecycle kind declares a return value.
pub open spec fn spec_return_msg(m: MethodType) -> Seq<char> {
    "#["@ + m.spec_name() + "] function cannot have a return value."@
}

pub fn return_msg(m: &MethodType) -> (r: String)
    ensures
        r@ == spec_return_msg(*m),
{
    let mut s = String::from_str("#[");
    s.append(m.name());
    s.append("] function cannot have a return value.");
    s
}

/// The message raised when a lifecycle kind configures a guard.
pub open spec fn spec_guard_msg(m: MethodType) -> Seq<char> {
    "#["@ + m.spec_name() + "] cannot have a guard function."@
}

pub fn guard_msg(m: &MethodType) -> (r: String)
    ensures
        r@ == spec_guard_msg(*m),
{
    let mut s = String::from_str("#[");
    s.append(m.name());
    s.append("] cannot have a guard function.");
    s
}

/// The message raised when a callable entry point takes a name in the
/// reserved internal namespace.
pub open spec fn spec_reserved_msg() -> Seq<char> {
    "Functions starting with `<ic-cdk internal>` are reserved for CDK internal use."@
}

pub fn reserved_msg() -> (r: String)
    ensures
        r@ == spec_reserved_msg(),
{
    String::from_str(
        "Functions starting with `<ic-cdk internal>` are reserved for CDK internal use.",
    )
}

} // verus!
