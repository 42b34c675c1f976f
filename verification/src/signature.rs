//! The model of a function signature, and the signature analyzer: it
//! extracts the ordered argument names (synthesizing positional placeholders
//! for parameters that are not simple identifiers), rejects receiver-style
//! parameters, and computes the return arity from the declared return type's
//! shape.

use crate::diag::{spec_receiver_msg, receiver_msg, DiagView, Diagnostic, Location};
use crate::method::MethodType;
use crate::text::{spec_decimal, decimal_string};
use vstd::prelude::*;

verus! {

/// The mathematical model of one parameter.
pub enum ParamView {
    /// A `self`-style parameter.
    Receiver,
    /// An ordinary typed parameter. `pattern` is `Some` for a simple
    /// identifier pattern, `None` for any other pattern; `ty` is the textual
    /// form of the declared type, carried for the caller's benefit but never
    /// read by the engine (argument types are left to the host compiler).
    Typed { pattern: Option<Seq<char>>, ty: Seq<char> },
}

/// One parameter of the annotated function.
pub enum FnParam {
    /// A `self`-style parameter.
    Receiver,
    /// An ordinary typed parameter; see [`ParamView::Typed`].
    Typed { pattern: Option<String>, ty: String },
}

impl View for FnParam {
    type V = ParamView;

    open spec fn view(&self) -> ParamView {
        match self {
            FnParam::Receiver => ParamView::Receiver,
            FnParam::Typed { pattern, ty } => ParamView::Typed {
                pattern: match pattern {
                    Some(p) => Some(p@),
                    None => None,
                },
                ty: ty@,
            },
        }
    }
}

/// The shape of the declared return type: omitted, a tuple of some length,
/// or any single non-tuple type. An explicit empty tuple is a tuple of
/// length zero, distinguished from an omitted return type only in how it was
/// written.
#[derive(Copy, Clone, Debug, PartialEq, Eq, Structural)]
pub enum ReturnShape {
    Omitted,
    Single,
    Tuple(usize),
}

/// The return arity: how many values the entry point hands back.
pub open spec fn spec_return_arity(s: ReturnShape) -> int {
    match s {
        ReturnShape::Omitted => 0,
        ReturnShape::Single => 1,
        ReturnShape::Tuple(n) => n as int,
    }
}

pub fn return_arity(s: ReturnShape) -> (r: usize)
    ensures
        r == spec_return_arity(s),
{
    match s {
        ReturnShape::Omitted => 0,
        ReturnShape::Single => 1,
        ReturnShape::Tuple(n) => n,
    }
}

/// The mathematical model of a signature.
pub struct SigView {
    pub ident: Seq<char>,
    pub is_async: bool,
    pub generic_params: usize,
    pub inputs: Seq<ParamView>,
    pub output: ReturnShape,
}

/// The parts of the annotated function's signature that the engine reads.
pub struct FnSig {
    /// The function's own identifier.
    pub ident: String,
    /// Whether the function is asynchronous.
    pub is_async: bool,
    /// How many generic parameters the signature declares.
    pub generic_params: usize,
    /// The parameters, in declaration order.
    pub inputs: Vec<FnParam>,
    /// The shape of the declared return type.
    pub output: ReturnShape,
}

impl View for FnSig {
    type V = SigView;

    open spec fn view(&self) -> SigView {
        SigView {
            ident: self.ident@,
            is_async: self.is_async,
            generic_params: self.generic_params,
            inputs: self.inputs@.map_values(|p: FnParam| p@),
            output: self.output,
        }
    }
}

/// The name a parameter is bound to: its own identifier if it is a simple
/// identifier pattern, else a placeholder synthesized from its zero-based
/// position.
pub open spec fn spec_param_name(p: ParamView, i: int) -> Seq<char> {
    match p {
        ParamView::Typed { pattern: Some(id), .. } => id,
        _ => "__unnamed_arg_"@ + spec_decimal(i as nat),
    }
}

/// Whether some parameter is receiver-style.
pub open spec fn spec_has_receiver(ps: Seq<ParamView>) -> bool {
    exists|i: int| 0 <= i < ps.len() && ps[i] is Receiver
}

/// The position of the first receiver-style parameter.
pub open spec fn spec_first_receiver(ps: Seq<ParamView>) -> int
    decreases ps.len(),
{
    if ps.len() == 0 {
        0
    } else if ps[0] is Receiver {
        0
    } else {
        1 + spec_first_receiver(ps.drop_first())
    }
}

proof fn lemma_first_receiver(ps: Seq<ParamView>, i: int)
    requires
        0 <= i < ps.len(),
        ps[i] is Receiver,
        forall|j: int| 0 <= j < i ==> !(ps[j] is Receiver),
    ensures
        spec_first_receiver(ps) == i,
    decreases i,
{
    if i > 0 {
        assert(forall|j: int| 0 <= j < i - 1 ==> ps.drop_first()[j] == ps[j + 1]);
        lemma_first_receiver(ps.drop_first(), i - 1);
    }
}

/// The bound argument names, in declaration order, for a parameter list with
/// no receiver.
pub open spec fn spec_arg_names(ps: Seq<ParamView>) -> Seq<Seq<char>> {
    Seq::new(ps.len(), |i: int| spec_param_name(ps[i], i))
}

/// Whether two parameters are written with the same pattern, whatever their
/// declared types.
pub open spec fn same_pattern(p1: ParamView, p2: ParamView) -> bool {
    match (p1, p2) {
        (ParamView::Receiver, ParamView::Receiver) => true,
        (
            ParamView::Typed { pattern: q1, .. },
            ParamView::Typed { pattern: q2, .. },
        ) => q1 == q2,
        _ => false,
    }
}

/// The decode step binds exactly the declared parameter names, in
/// declaration order, regardless of the parameters' types: two parameter
/// lists written with the same patterns bind the same names.
pub proof fn lemma_args_ignore_types(ps1: Seq<ParamView>, ps2: Seq<ParamView>)
    requires
        ps1.len() == ps2.len(),
        forall|i: int| 0 <= i < ps1.len() ==> same_pattern(ps1[i], ps2[i]),
    ensures
        spec_arg_names(ps1) == spec_arg_names(ps2),
        spec_has_receiver(ps1) == spec_has_receiver(ps2),
{
    assert forall|i: int| 0 <= i < ps1.len() implies spec_arg_names(ps1)[i] == spec_arg_names(
        ps2,
    )[i] by {
        assert(same_pattern(ps1[i], ps2[i]));
    }
    assert(spec_arg_names(ps1) =~= spec_arg_names(ps2));
    assert forall|i: int| 0 <= i < ps1.len() implies (ps1[i] is Receiver <==> ps2[i] is Receiver) by {
        assert(same_pattern(ps1[i], ps2[i]));
    }
    assert(spec_has_receiver(ps1) == spec_has_receiver(ps2)) by {
        if spec_has_receiver(ps1) {
            let i = choose|i: int| 0 <= i < ps1.len() && ps1[i] is Receiver;
            assert(ps2[i] is Receiver);
        }
        if spec_has_receiver(ps2) {
            let i = choose|i: int| 0 <= i < ps2.len() && ps2[i] is Receiver;
            assert(ps1[i] is Receiver);
        }
    }
}

/// Walks the parameters in declaration order and produces the names the
/// decoded arguments are bound to. A receiver-style parameter is an error,
/// located at that parameter.
pub fn get_args(method: MethodType, inputs: &Vec<FnParam>) -> (r: Result<Vec<String>, Diagnostic>)
    ensures
        match r {
            Ok(names) => {
                &&& !spec_has_receiver(inputs@.map_values(|p: FnParam| p@))
                &&& names@.len() == inputs@.len()
                &&& forall|j: int|
                    0 <= j < names@.len() ==> names@[j]@ == spec_param_name(
                        inputs@.map_values(|p: FnParam| p@)[j],
                        j,
                    )
            },
            Err(d) => {
                let ps = inputs@.map_values(|p: FnParam| p@);
                &&& spec_has_receiver(ps)
                &&& d@ == (DiagView {
                    location: Location::Parameter(spec_first_receiver(ps) as usize),
                    message: spec_receiver_msg(method),
                })
            },
        },
{
    let ghost ps = inputs@.map_values(|p: FnParam| p@);
    let mut names: Vec<String> = Vec::new();
    let n = inputs.len();
    let mut i: usize = 0;
    while i < n
        invariant
            i <= n,
            n == inputs@.len(),
            ps == inputs@.map_values(|p: FnParam| p@),
            names@.len() == i,
            forall|j: int| 0 <= j < i ==> !(ps[j] is Receiver),
            forall|j: int| 0 <= j < i ==> names@[j]@ == spec_param_name(ps[j], j),
        decreases n - i,
    {
        match &inputs[i] {
            FnParam::Receiver => {
                proof {
                    lemma_first_receiver(ps, i as int);
                }
                return Err(Diagnostic {
                    location: Location::Parameter(i),
                    message: receiver_msg(&method),
                });
            },
            FnParam::Typed { pattern: Some(id), .. } => {
                names.push(id.clone());
            },
            FnParam::Typed { pattern: None, .. } => {
                let mut placeholder = String::from_str("__unnamed_arg_");
                let digits = decimal_string(i);
                placeholder.append(digits.as_str());
                names.push(placeholder);
            },
        }
        i += 1;
    }
    Ok(names)
}

} // verus!
