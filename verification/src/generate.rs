//! The transformation engine: validates one {method kind, configuration,
//! signature} triple and produces the text of the replacement entry point
//! and of the interface-description annotation, or a located diagnostic.

use crate::config::{AttrsView, ExportAttributes};
use crate::diag::{
    spec_generics_msg, spec_guard_msg, spec_receiver_msg, spec_reserved_msg, spec_return_msg,
    generics_msg, guard_msg, DiagView, Diagnostic, Location,
};
use crate::method::MethodType;
use crate::names::{
    spec_device_symbol, spec_host_symbol, spec_is_reserved, export_names,
};
use crate::render::{
    attr_lines, call_line, decode_code, fn_header, guard_code, interface_attr, reply_line,
    spec_attr_lines, spec_call_line, spec_decode_code, spec_fn_header, spec_guard_code,
    spec_interface_attr, spec_reply_line, str_views,
};
use crate::signature::{
    get_args, return_arity, spec_arg_names, spec_first_receiver, spec_has_receiver,
    spec_return_arity, FnSig, SigView,
};
use vstd::prelude::*;

verus! {

/// The mathematical model of a successful transformation.
pub struct GenView {
    pub wrapper: Seq<char>,
    pub interface_attr: Seq<char>,
}

/// What a successful transformation produces: the full text of the
/// replacement entry point, and the interface-description annotation to
/// place above the original function (empty when suppressed or when the
/// kind has no public-interface representation).
#[derive(Debug)]
pub struct Generated {
    pub wrapper: String,
    pub interface_attr: String,
}

impl View for Generated {
    type V = GenView;

    open spec fn view(&self) -> GenView {
        GenView { wrapper: self.wrapper@, interface_attr: self.interface_attr@ }
    }
}

/// The external name the entry point resolves to: the configured override,
/// or the function's own identifier.
pub open spec fn spec_resolved_name(attrs: AttrsView, sig: SigView) -> Seq<char> {
    match attrs.name {
        Some(n) => n,
        None => sig.ident,
    }
}

/// The full text of the replacement entry point. Its body performs, in
/// order: runtime setup; the synchronous guard check, if configured; then
/// one scheduled asynchronous task that decodes the arguments (skipped only
/// when the kind is lifecycle and the function declares no parameters),
/// invokes the original function exactly once, and encodes the result
/// (skipped for lifecycle kinds and under manual reply).
pub open spec fn spec_wrapper(
    method: MethodType,
    attrs: AttrsView,
    sig: SigView,
    name: Seq<char>,
) -> Seq<char> {
    let names = spec_arg_names(sig.inputs);
    let device = spec_device_symbol(method, name, attrs.composite);
    spec_attr_lines(device, spec_host_symbol(device)) + spec_fn_header(sig.ident)
        + spec_guard_code(attrs.guard) + "    ic_cdk::spawn(async {\n"@ + (
    if method.spec_is_lifecycle() && names.len() == 0 {
        Seq::<char>::empty()
    } else {
        spec_decode_code(names, attrs.decoding_quota, attrs.skipping_quota, attrs.debug)
    }) + spec_call_line(sig.ident, names, sig.is_async) + (
    if method.spec_is_lifecycle() || attrs.manual_reply {
        Seq::<char>::empty()
    } else {
        spec_reply_line(spec_return_arity(sig.output))
    }) + "    });\n}\n"@
}

/// What the transformation yields on every input: the generated texts, or
/// the first applicable diagnostic — in order: a non-empty generics clause;
/// a lifecycle kind with a return value; a receiver-style parameter; a
/// reserved external name on a callable kind; a guard on a lifecycle kind.
pub open spec fn spec_transform(method: MethodType, attrs: AttrsView, sig: SigView) -> Result<
    GenView,
    DiagView,
> {
    if sig.generic_params > 0 {
        Err(DiagView { location: Location::Generics, message: spec_generics_msg(method) })
    } else if method.spec_is_lifecycle() && spec_return_arity(sig.output) > 0 {
        Err(DiagView { location: Location::CallSite, message: spec_return_msg(method) })
    } else if spec_has_receiver(sig.inputs) {
        Err(
            DiagView {
                location: Location::Parameter(spec_first_receiver(sig.inputs) as usize),
                message: spec_receiver_msg(method),
            },
        )
    } else {
        let name = spec_resolved_name(attrs, sig);
        if !method.spec_is_lifecycle() && spec_is_reserved(name) {
            Err(DiagView { location: Location::CallSite, message: spec_reserved_msg() })
        } else if method.spec_is_lifecycle() && attrs.guard is Some {
            Err(DiagView { location: Location::Attribute, message: spec_guard_msg(method) })
        } else {
            Ok(
                GenView {
                    wrapper: spec_wrapper(method, attrs, sig, name),
                    interface_attr: spec_interface_attr(
                        method,
                        name,
                        attrs.composite,
                        attrs.hidden,
                    ),
                },
            )
        }
    }
}

/// Transforms one entry point: validates the combination of method kind,
/// configuration and signature, and produces the replacement entry point's
/// text, or halts with the first applicable located diagnostic.
pub fn dfn_macro(method: MethodType, attrs: &ExportAttributes, sig: &FnSig) -> (r: Result<
    Generated,
    Diagnostic,
>)
    ensures
        match (r, spec_transform(method, attrs@, sig@)) {
            (Ok(g), Ok(v)) => g@ == v,
            (Err(d), Err(e)) => d@ == e,
            _ => false,
        },
{
    if sig.generic_params > 0 {
        return Err(Diagnostic { location: Location::Generics, message: generics_msg(&method) });
    }
    let arity = return_arity(sig.output);
    if method.is_lifecycle() && arity > 0 {
        return Err(
            Diagnostic {
                location: Location::CallSite,
                message: crate::diag::return_msg(&method),
            },
        );
    }
    let names = match get_args(method, &sig.inputs) {
        Ok(n) => n,
        Err(d) => {
            return Err(d);
        },
    };
    let function_name: String = match &attrs.name {
        Some(n) => n.clone(),
        None => sig.ident.clone(),
    };
    let syms = match export_names(method, function_name.as_str(), attrs.composite) {
        Ok(p) => p,
        Err(d) => {
            return Err(d);
        },
    };
    if method.is_lifecycle() && attrs.guard.is_some() {
        return Err(Diagnostic { location: Location::Attribute, message: guard_msg(&method) });
    }
    proof {
        assert(str_views(names@) =~= spec_arg_names(sig@.inputs));
    }
    let mut w = attr_lines(syms.device.as_str(), syms.host.as_str());
    let header = fn_header(sig.ident.as_str());
    w.append(header.as_str());
    let guard = guard_code(&attrs.guard);
    w.append(guard.as_str());
    w.append("    ic_cdk::spawn(async {\n");
    let decode = if method.is_lifecycle() && names.len() == 0 {
        String::new()
    } else {
        decode_code(&names, &attrs.decoding_quota, &attrs.skipping_quota, attrs.debug)
    };
    w.append(decode.as_str());
    let call = call_line(sig.ident.as_str(), &names, sig.is_async);
    w.append(call.as_str());
    let reply = if method.is_lifecycle() || attrs.manual_reply {
        String::new()
    } else {
        reply_line(arity)
    };
    w.append(reply.as_str());
    w.append("    });\n}\n");
    let ia = interface_attr(method, function_name.as_str(), attrs.composite, attrs.hidden);
    proof {
        assert(w@ == spec_wrapper(method, attrs@, sig@, spec_resolved_name(attrs@, sig@)));
    }
    Ok(Generated { wrapper: w, interface_attr: ia })
}

/// For a function with no parameters and no return value, under a
/// configuration with no guard and automatic replies, transformation
/// succeeds and the wrapper: performs setup; contains no guard check;
/// skips argument decoding exactly when the kind is lifecycle; invokes the
/// function with no arguments; and replies with the empty payload exactly
/// when the kind is callable.
pub proof fn lemma_unit_entry_point(method: MethodType, attrs: AttrsView, sig: SigView)
    requires
        sig.inputs.len() == 0,
        spec_return_arity(sig.output) == 0,
        sig.generic_params == 0,
        attrs.guard is None,
        !attrs.manual_reply,
        !(!method.spec_is_lifecycle() && spec_is_reserved(spec_resolved_name(attrs, sig))),
    ensures
        match spec_transform(method, attrs, sig) {
            Ok(g) => {
                let name = spec_resolved_name(attrs, sig);
                let device = spec_device_symbol(method, name, attrs.composite);
                g.wrapper == spec_attr_lines(device, spec_host_symbol(device)) + spec_fn_header(
                    sig.ident,
                ) + Seq::<char>::empty() + "    ic_cdk::spawn(async {\n"@ + (
                if method.spec_is_lifecycle() {
                    Seq::<char>::empty()
                } else {
                    spec_decode_code(
                        Seq::<Seq<char>>::empty(),
                        attrs.decoding_quota,
                        attrs.skipping_quota,
                        attrs.debug,
                    )
                }) + spec_call_line(sig.ident, Seq::<Seq<char>>::empty(), sig.is_async) + (
                if method.spec_is_lifecycle() {
                    Seq::<char>::empty()
                } else {
                    spec_reply_line(0)
                }) + "    });\n}\n"@
            },
            Err(_) => false,
        },
{
    assert(spec_arg_names(sig.inputs) =~= Seq::<Seq<char>>::empty());
}

/// Determinism of the transformation: the result is a function of the
/// method kind, the resolved configuration and the signature alone, so
/// transforming the same triple twice produces byte-identical generated
/// code.
pub proof fn lemma_transform_deterministic(
    m1: MethodType,
    a1: AttrsView,
    s1: SigView,
    m2: MethodType,
    a2: AttrsView,
    s2: SigView,
)
    requires
        m1 == m2,
        a1 == a2,
        s1 == s2,
    ensures
        spec_transform(m1, a1, s1) == spec_transform(m2, a2, s2),
{
}

/// A function taking a receiver-style parameter fails transformation,
/// whatever the method kind and configuration.
pub proof fn lemma_receiver_rejected(method: MethodType, attrs: AttrsView, sig: SigView)
    requires
        spec_has_receiver(sig.inputs),
    ensures
        spec_transform(method, attrs, sig) is Err,
{
}

/// A lifecycle kind declaring a return value fails with the
/// "cannot have a return value" diagnostic.
pub proof fn lemma_lifecycle_return_rejected(method: MethodType, attrs: AttrsView, sig: SigView)
    requires
        method.spec_is_lifecycle(),
        spec_return_arity(sig.output) > 0,
        sig.generic_params == 0,
    ensures
        spec_transform(method, attrs, sig) == Result::<GenView, DiagView>::Err(
            DiagView { location: Location::CallSite, message: spec_return_msg(method) },
        ),
{
}

/// A lifecycle kind with unit return but a guard configured fails with the
/// "cannot have a guard function" diagnostic.
pub proof fn lemma_lifecycle_guard_rejected(method: MethodType, attrs: AttrsView, sig: SigView)
    requires
        method.spec_is_lifecycle(),
        spec_return_arity(sig.output) == 0,
        sig.generic_params == 0,
        !spec_has_receiver(sig.inputs),
        attrs.guard is Some,
    ensures
        spec_transform(method, attrs, sig) == Result::<GenView, DiagView>::Err(
            DiagView { location: Location::Attribute, message: spec_guard_msg(method) },
        ),
{
}

/// The reply step depends on the return arity alone, never on the declared
/// type itself: two signatures that differ only in return shapes of equal
/// arity transform identically.
pub proof fn lemma_reply_depends_on_arity(
    method: MethodType,
    attrs: AttrsView,
    s1: SigView,
    s2: SigView,
)
    requires
        s1.ident == s2.ident,
        s1.is_async == s2.is_async,
        s1.generic_params == s2.generic_params,
        s1.inputs == s2.inputs,
        spec_return_arity(s1.output) == spec_return_arity(s2.output),
    ensures
        spec_transform(method, attrs, s1) == spec_transform(method, attrs, s2),
{
}

/// Transforms an update entry point.
pub fn ic_update(attrs: &ExportAttributes, sig: &FnSig) -> (r: Result<Generated, Diagnostic>)
    ensures
        match (r, spec_transform(MethodType::Update, attrs@, sig@)) {
            (Ok(g), Ok(v)) => g@ == v,
            (Err(d), Err(e)) => d@ == e,
            _ => false,
        },
{
    dfn_macro(MethodType::Update, attrs, sig)
}

/// Transforms a query entry point.
pub fn ic_query(attrs: &ExportAttributes, sig: &FnSig) -> (r: Result<Generated, Diagnostic>)
    ensures
        match (r, spec_transform(MethodType::Query, attrs@, sig@)) {
            (Ok(g), Ok(v)) => g@ == v,
            (Err(d), Err(e)) => d@ == e,
            _ => false,
        },
{
    dfn_macro(MethodType::Query, attrs, sig)
}

/// Transforms an initialization entry point.
pub fn ic_init(attrs: &ExportAttributes, sig: &FnSig) -> (r: Result<Generated, Diagnostic>)
    ensures
        match (r, spec_transform(MethodType::Init, attrs@, sig@)) {
            (Ok(g), Ok(v)) => g@ == v,
            (Err(d), Err(e)) => d@ == e,
            _ => false,
        },
{
    dfn_macro(MethodType::Init, attrs, sig)
}

/// Transforms a pre-upgrade entry point.
pub fn ic_pre_upgrade(attrs: &ExportAttributes, sig: &FnSig) -> (r: Result<Generated, Diagnostic>)
    ensures
        match (r, spec_transform(MethodType::PreUpgrade, attrs@, sig@)) {
            (Ok(g), Ok(v)) => g@ == v,
            (Err(d), Err(e)) => d@ == e,
            _ => false,
        },
{
    dfn_macro(MethodType::PreUpgrade, attrs, sig)
}

/// Transforms a post-upgrade entry point.
pub fn ic_post_upgrade(attrs: &ExportAttributes, sig: &FnSig) -> (r: Result<Generated, Diagnostic>)
    ensures
        match (r, spec_transform(MethodType::PostUpgrade, attrs@, sig@)) {
            (Ok(g), Ok(v)) => g@ == v,
            (Err(d), Err(e)) => d@ == e,
            _ => false,
        },
{
    dfn_macro(MethodType::PostUpgrade, attrs, sig)
}

/// Transforms a heartbeat entry point.
pub fn ic_heartbeat(attrs: &ExportAttributes, sig: &FnSig) -> (r: Result<Generated, Diagnostic>)
    ensures
        match (r, spec_transform(MethodType::Heartbeat, attrs@, sig@)) {
            (Ok(g), Ok(v)) => g@ == v,
            (Err(d), Err(e)) => d@ == e,
            _ => false,
        },
{
    dfn_macro(MethodType::Heartbeat, attrs, sig)
}

/// Transforms an inbound-message inspection entry point.
pub fn ic_inspect_message(attrs: &ExportAttributes, sig: &FnSig) -> (r: Result<
    Generated,
    Diagnostic,
>)
    ensures
        match (r, spec_transform(MethodType::InspectMessage, attrs@, sig@)) {
            (Ok(g), Ok(v)) => g@ == v,
            (Err(d), Err(e)) => d@ == e,
            _ => false,
        },
{
    dfn_macro(MethodType::InspectMessage, attrs, sig)
}

/// Transforms a low-memory notification entry point.
pub fn ic_on_low_wasm_memory(attrs: &ExportAttributes, sig: &FnSig) -> (r: Result<
    Generated,
    Diagnostic,
>)
    ensures
        match (r, spec_transform(MethodType::OnLowWasmMemory, attrs@, sig@)) {
            (Ok(g), Ok(v)) => g@ == v,
            (Err(d), Err(e)) => d@ == e,
            _ => false,
        },
{
    dfn_macro(MethodType::OnLowWasmMemory, attrs, sig)
}

} // verus!
