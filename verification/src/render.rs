//! The textual pieces of the generated entry point. Each piece has a spec
//! giving its exact character sequence and an executable builder proved to
//! produce it.

use crate::method::MethodType;
use crate::text::{spec_decimal, decimal_string};
use vstd::prelude::*;

verus! {

/// The views of a list of strings.
pub open spec fn str_views(names: Seq<String>) -> Seq<Seq<char>> {
    names.map_values(|s: String| s@)
}

/// The two export attributes placed on the generated function: the device
/// symbol for the on-device build target, the host-compatible symbol for
/// every other.
pub open spec fn spec_attr_lines(device: Seq<char>, host: Seq<char>) -> Seq<char> {
    "#[cfg_attr(target_family = \"wasm\", export_name = \""@ + device
        + "\")]\n#[cfg_attr(not(target_family = \"wasm\"), export_name = \""@ + host + "\")]\n"@
}

pub fn attr_lines(device: &str, host: &str) -> (r: String)
    ensures
        r@ == spec_attr_lines(device@, host@),
{
    let mut s = String::from_str("#[cfg_attr(target_family = \"wasm\", export_name = \"");
    s.append(device);
    s.append("\")]\n#[cfg_attr(not(target_family = \"wasm\"), export_name = \"");
    s.append(host);
    s.append("\")]\n");
    s
}

/// The head of the generated function: its synthesized identifier and the
/// unconditional runtime setup call.
pub open spec fn spec_fn_header(ident: Seq<char>) -> Seq<char> {
    "fn __canister_method_"@ + ident + "() {\n    ic_cdk::setup();\n"@
}

pub fn fn_header(ident: &str) -> (r: String)
    ensures
        r@ == spec_fn_header(ident@),
{
    let mut s = String::from_str("fn __canister_method_");
    s.append(ident);
    s.append("() {\n    ic_cdk::setup();\n");
    s
}

/// The synchronous guard check, run before any asynchronous work: a failure
/// outcome rejects the message and returns without running the body.
pub open spec fn spec_guard_code(guard: Option<Seq<char>>) -> Seq<char> {
    match guard {
        None => Seq::<char>::empty(),
        Some(g) => "    let r: Result<(), String> = "@ + g
            + "();\n    if let Err(e) = r {\n        ic_cdk::api::call::reject(&e);\n        return;\n    }\n"@,
    }
}

pub fn guard_code(guard: &Option<String>) -> (r: String)
    ensures
        r@ == spec_guard_code(match guard {
            Some(g) => Some(g@),
            None => None,
        }),
{
    match guard {
        None => String::new(),
        Some(g) => {
            let mut s = String::from_str("    let r: Result<(), String> = ");
            s.append(g.as_str());
            s.append(
                "();\n    if let Err(e) = r {\n        ic_cdk::api::call::reject(&e);\n        return;\n    }\n",
            );
            s
        },
    }
}

/// An optional quota as it appears in the decoder configuration.
pub open spec fn spec_opt_quota(o: Option<usize>) -> Seq<char> {
    match o {
        Some(n) => "Some("@ + spec_decimal(n as nat) + "usize)"@,
        None => "None"@,
    }
}

pub fn opt_quota(o: &Option<usize>) -> (r: String)
    ensures
        r@ == spec_opt_quota(*o),
{
    match o {
        Some(n) => {
            let mut s = String::from_str("Some(");
            let digits = decimal_string(*n);
            s.append(digits.as_str());
            s.append("usize)");
            s
        },
        None => String::from_str("None"),
    }
}

/// A boolean as it appears in the decoder configuration.
pub open spec fn spec_bool_text(b: bool) -> Seq<char> {
    if b {
        "true"@
    } else {
        "false"@
    }
}

pub fn bool_text(b: bool) -> (r: String)
    ensures
        r@ == spec_bool_text(b),
{
    if b {
        String::from_str("true")
    } else {
        String::from_str("false")
    }
}

/// The elements of the tuple pattern the decoded arguments are bound to:
/// each name followed by a comma, in declaration order.
pub open spec fn spec_pattern_elems(names: Seq<Seq<char>>) -> Seq<char>
    decreases names.len(),
{
    if names.len() == 0 {
        Seq::<char>::empty()
    } else {
        spec_pattern_elems(names.drop_last()) + names.last() + ", "@
    }
}

pub fn pattern_elems(names: &Vec<String>) -> (r: String)
    ensures
        r@ == spec_pattern_elems(str_views(names@)),
{
    let mut out = String::new();
    let n = names.len();
    let mut i: usize = 0;
    while i < n
        invariant
            i <= n,
            n == names@.len(),
            out@ == spec_pattern_elems(str_views(names@).take(i as int)),
        decreases n - i,
    {
        out.append(names[i].as_str());
        out.append(", ");
        proof {
            let v = str_views(names@);
            assert(v.take(i + 1).drop_last() =~= v.take(i as int));
            assert(v.take(i + 1).last() == names@[i as int]@);
        }
        i += 1;
    }
    proof {
        assert(str_views(names@).take(n as int) =~= str_views(names@));
    }
    out
}

/// The argument list of the call to the original function: the names joined
/// by commas.
pub open spec fn spec_call_args(names: Seq<Seq<char>>) -> Seq<char>
    decreases names.len(),
{
    if names.len() == 0 {
        Seq::<char>::empty()
    } else if names.len() == 1 {
        names[0]
    } else {
        spec_call_args(names.drop_last()) + ", "@ + names.last()
    }
}

pub fn call_args(names: &Vec<String>) -> (r: String)
    ensures
        r@ == spec_call_args(str_views(names@)),
{
    let mut out = String::new();
    let n = names.len();
    if n == 0 {
        return out;
    }
    out.append(names[0].as_str());
    proof {
        let v = str_views(names@);
        assert(Seq::<char>::empty() + names@[0]@ =~= names@[0]@);
        assert(v.take(1int)[0] == v[0]);
        assert(out@ == spec_call_args(v.take(1int)));
    }
    let mut i: usize = 1;
    while i < n
        invariant
            1 <= i <= n,
            n == names@.len(),
            out@ == spec_call_args(str_views(names@).take(i as int)),
        decreases n - i,
    {
        out.append(", ");
        out.append(names[i].as_str());
        proof {
            let v = str_views(names@);
            assert(v.take(i + 1).drop_last() =~= v.take(i as int));
            assert(v.take(i + 1).last() == names@[i as int]@);
        }
        i += 1;
    }
    proof {
        assert(str_views(names@).take(n as int) =~= str_views(names@));
    }
    out
}

/// The argument-decoding statement: binds the decoded tuple to the
/// parameter names, passing the configured quotas and debug flag to the
/// decode facility.
pub open spec fn spec_decode_code(
    names: Seq<Seq<char>>,
    decoding_quota: Option<usize>,
    skipping_quota: Option<usize>,
    debug: bool,
) -> Seq<char> {
    "        let ("@ + spec_pattern_elems(names)
        + ") = ic_cdk::api::call::arg_data(ic_cdk::api::call::ArgDecoderConfig { decoding_quota: "@
        + spec_opt_quota(decoding_quota) + ", skipping_quota: "@ + spec_opt_quota(skipping_quota)
        + ", debug: "@ + spec_bool_text(debug) + " });\n"@
}

pub fn decode_code(
    names: &Vec<String>,
    decoding_quota: &Option<usize>,
    skipping_quota: &Option<usize>,
    debug: bool,
) -> (r: String)
    ensures
        r@ == spec_decode_code(str_views(names@), *decoding_quota, *skipping_quota, debug),
{
    let mut s = String::from_str("        let (");
    let elems = pattern_elems(names);
    s.append(elems.as_str());
    s.append(
        ") = ic_cdk::api::call::arg_data(ic_cdk::api::call::ArgDecoderConfig { decoding_quota: ",
    );
    let dq = opt_quota(decoding_quota);
    s.append(dq.as_str());
    s.append(", skipping_quota: ");
    let sq = opt_quota(skipping_quota);
    s.append(sq.as_str());
    s.append(", debug: ");
    let b = bool_text(debug);
    s.append(b.as_str());
    s.append(" });\n");
    s
}

/// The end of the call statement: awaited for an asynchronous body.
pub open spec fn spec_call_close(is_async: bool) -> Seq<char> {
    if is_async {
        ").await;\n"@
    } else {
        ");\n"@
    }
}

/// The invocation of the original function, exactly once, with the bound
/// arguments in declaration order.
pub open spec fn spec_call_line(ident: Seq<char>, names: Seq<Seq<char>>, is_async: bool) -> Seq<
    char,
> {
    "        let result = "@ + ident + "("@ + spec_call_args(names) + spec_call_close(is_async)
}

pub fn call_line(ident: &str, names: &Vec<String>, is_async: bool) -> (r: String)
    ensures
        r@ == spec_call_line(ident@, str_views(names@), is_async),
{
    let mut s = String::from_str("        let result = ");
    s.append(ident);
    s.append("(");
    let args = call_args(names);
    s.append(args.as_str());
    if is_async {
        s.append(").await;\n");
    } else {
        s.append(");\n");
    }
    s
}

/// The automatic reply: the unit value for arity zero, the result wrapped
/// in a single-element tuple for arity one, the result unchanged (already
/// tuple-shaped) otherwise.
pub open spec fn spec_reply_line(arity: int) -> Seq<char> {
    if arity == 0 {
        "        ic_cdk::api::call::reply(());\n"@
    } else if arity == 1 {
        "        ic_cdk::api::call::reply((result,));\n"@
    } else {
        "        ic_cdk::api::call::reply(result);\n"@
    }
}

pub fn reply_line(arity: usize) -> (r: String)
    ensures
        r@ == spec_reply_line(arity as int),
{
    if arity == 0 {
        String::from_str("        ic_cdk::api::call::reply(());\n")
    } else if arity == 1 {
        String::from_str("        ic_cdk::api::call::reply((result,));\n")
    } else {
        String::from_str("        ic_cdk::api::call::reply(result);\n")
    }
}

/// The interface-description annotation attached to the original function:
/// suppressed by the hidden flag, and absent for kinds with no
/// public-interface representation.
pub open spec fn spec_interface_attr(
    method: MethodType,
    name: Seq<char>,
    composite: bool,
    hidden: bool,
) -> Seq<char> {
    if hidden {
        Seq::<char>::empty()
    } else {
        match method {
            MethodType::Query => if composite {
                "#[::candid::candid_method(composite_query, rename = \""@ + name + "\")]"@
            } else {
                "#[::candid::candid_method(query, rename = \""@ + name + "\")]"@
            },
            MethodType::Update => "#[::candid::candid_method(update, rename = \""@ + name
                + "\")]"@,
            MethodType::Init => "#[::candid::candid_method(init)]"@,
            _ => Seq::<char>::empty(),
        }
    }
}

pub fn interface_attr(method: MethodType, name: &str, composite: bool, hidden: bool) -> (r: String)
    ensures
        r@ == spec_interface_attr(method, name@, composite, hidden),
{
    if hidden {
        return String::new();
    }
    match method {
        MethodType::Query => {
            let mut s = if composite {
                String::from_str("#[::candid::candid_method(composite_query, rename = \"")
            } else {
                String::from_str("#[::candid::candid_method(query, rename = \"")
            };
            s.append(name);
            s.append("\")]");
            s
        },
        MethodType::Update => {
            let mut s = String::from_str("#[::candid::candid_method(update, rename = \"");
            s.append(name);
            s.append("\")]");
            s
        },
        MethodType::Init => String::from_str("#[::candid::candid_method(init)]"),
        _ => String::new(),
    }
}

} // verus!
