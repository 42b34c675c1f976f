use canister_export::config::{default_skipping_quota, ExportAttributes};
use canister_export::diag::Location;
use canister_export::generate::{dfn_macro, ic_heartbeat, ic_init, ic_query, ic_update};
use canister_export::signature::{FnParam, FnSig, ReturnShape};
use canister_export::MethodType;

fn sig_with(ident: &str, inputs: Vec<FnParam>, output: ReturnShape) -> FnSig {
    FnSig {
        ident: ident.to_string(),
        is_async: false,
        generic_params: 0,
        inputs,
        output,
    }
}

fn named(name: &str, ty: &str) -> FnParam {
    FnParam::Typed {
        pattern: Some(name.to_string()),
        ty: ty.to_string(),
    }
}

fn unnamed(ty: &str) -> FnParam {
    FnParam::Typed {
        pattern: None,
        ty: ty.to_string(),
    }
}

#[test]
fn ic_query_empty() {
    let generated = ic_query(
        &ExportAttributes::default(),
        &sig_with("query", vec![], ReturnShape::Omitted),
    )
    .unwrap();
    let expected = r#"#[cfg_attr(target_family = "wasm", export_name = "canister_query query")]
#[cfg_attr(not(target_family = "wasm"), export_name = "canister_query.query")]
fn __canister_method_query() {
    ic_cdk::setup();
    ic_cdk::spawn(async {
        let () = ic_cdk::api::call::arg_data(ic_cdk::api::call::ArgDecoderConfig { decoding_quota: None, skipping_quota: Some(10000usize), debug: false });
        let result = query();
        ic_cdk::api::call::reply(());
    });
}
"#;
    assert_eq!(generated.wrapper, expected);
    assert_eq!(
        generated.interface_attr,
        "#[::candid::candid_method(query, rename = \"query\")]"
    );
}

#[test]
fn ic_query_return_one_value() {
    let generated = ic_query(
        &ExportAttributes::default(),
        &sig_with("query", vec![], ReturnShape::Single),
    )
    .unwrap();
    let expected = r#"#[cfg_attr(target_family = "wasm", export_name = "canister_query query")]
#[cfg_attr(not(target_family = "wasm"), export_name = "canister_query.query")]
fn __canister_method_query() {
    ic_cdk::setup();
    ic_cdk::spawn(async {
        let () = ic_cdk::api::call::arg_data(ic_cdk::api::call::ArgDecoderConfig { decoding_quota: None, skipping_quota: Some(10000usize), debug: false });
        let result = query();
        ic_cdk::api::call::reply((result,));
    });
}
"#;
    assert_eq!(generated.wrapper, expected);
}

#[test]
fn ic_query_return_tuple() {
    let generated = ic_query(
        &ExportAttributes::default(),
        &sig_with("query", vec![], ReturnShape::Tuple(2)),
    )
    .unwrap();
    let expected = r#"#[cfg_attr(target_family = "wasm", export_name = "canister_query query")]
#[cfg_attr(not(target_family = "wasm"), export_name = "canister_query.query")]
fn __canister_method_query() {
    ic_cdk::setup();
    ic_cdk::spawn(async {
        let () = ic_cdk::api::call::arg_data(ic_cdk::api::call::ArgDecoderConfig { decoding_quota: None, skipping_quota: Some(10000usize), debug: false });
        let result = query();
        ic_cdk::api::call::reply(result);
    });
}
"#;
    assert_eq!(generated.wrapper, expected);
}

#[test]
fn ic_query_one_arg() {
    let generated = ic_query(
        &ExportAttributes::default(),
        &sig_with("query", vec![named("a", "u32")], ReturnShape::Omitted),
    )
    .unwrap();
    let expected = r#"#[cfg_attr(target_family = "wasm", export_name = "canister_query query")]
#[cfg_attr(not(target_family = "wasm"), export_name = "canister_query.query")]
fn __canister_method_query() {
    ic_cdk::setup();
    ic_cdk::spawn(async {
        let (a, ) = ic_cdk::api::call::arg_data(ic_cdk::api::call::ArgDecoderConfig { decoding_quota: None, skipping_quota: Some(10000usize), debug: false });
        let result = query(a);
        ic_cdk::api::call::reply(());
    });
}
"#;
    assert_eq!(generated.wrapper, expected);
}

#[test]
fn ic_query_two_args() {
    let generated = ic_query(
        &ExportAttributes::default(),
        &sig_with(
            "query",
            vec![named("a", "u32"), named("b", "u32")],
            ReturnShape::Omitted,
        ),
    )
    .unwrap();
    let expected = r#"#[cfg_attr(target_family = "wasm", export_name = "canister_query query")]
#[cfg_attr(not(target_family = "wasm"), export_name = "canister_query.query")]
fn __canister_method_query() {
    ic_cdk::setup();
    ic_cdk::spawn(async {
        let (a, b, ) = ic_cdk::api::call::arg_data(ic_cdk::api::call::ArgDecoderConfig { decoding_quota: None, skipping_quota: Some(10000usize), debug: false });
        let result = query(a, b);
        ic_cdk::api::call::reply(());
    });
}
"#;
    assert_eq!(generated.wrapper, expected);
}

#[test]
fn ic_query_two_args_return_value() {
    let generated = ic_query(
        &ExportAttributes::default(),
        &sig_with(
            "query",
            vec![named("a", "u32"), named("b", "u32")],
            ReturnShape::Single,
        ),
    )
    .unwrap();
    let expected = r#"#[cfg_attr(target_family = "wasm", export_name = "canister_query query")]
#[cfg_attr(not(target_family = "wasm"), export_name = "canister_query.query")]
fn __canister_method_query() {
    ic_cdk::setup();
    ic_cdk::spawn(async {
        let (a, b, ) = ic_cdk::api::call::arg_data(ic_cdk::api::call::ArgDecoderConfig { decoding_quota: None, skipping_quota: Some(10000usize), debug: false });
        let result = query(a, b);
        ic_cdk::api::call::reply((result,));
    });
}
"#;
    assert_eq!(generated.wrapper, expected);
}

#[test]
fn ic_query_export_name() {
    let attrs = ExportAttributes {
        name: Some("custom_query".to_string()),
        ..ExportAttributes::default()
    };
    let generated = ic_query(&attrs, &sig_with("query", vec![], ReturnShape::Omitted)).unwrap();
    let expected = r#"#[cfg_attr(target_family = "wasm", export_name = "canister_query custom_query")]
#[cfg_attr(not(target_family = "wasm"), export_name = "canister_query.custom_query")]
fn __canister_method_query() {
    ic_cdk::setup();
    ic_cdk::spawn(async {
        let () = ic_cdk::api::call::arg_data(ic_cdk::api::call::ArgDecoderConfig { decoding_quota: None, skipping_quota: Some(10000usize), debug: false });
        let result = query();
        ic_cdk::api::call::reply(());
    });
}
"#;
    assert_eq!(generated.wrapper, expected);
    assert_eq!(
        generated.interface_attr,
        "#[::candid::candid_method(query, rename = \"custom_query\")]"
    );
}

#[test]
fn defaults_resolve_as_documented() {
    assert_eq!(default_skipping_quota(), Some(10000));
    let attrs = ExportAttributes::default();
    assert_eq!(attrs.name, None);
    assert_eq!(attrs.guard, None);
    assert!(!attrs.manual_reply);
    assert!(!attrs.composite);
    assert!(!attrs.hidden);
    assert_eq!(attrs.decoding_quota, None);
    assert_eq!(attrs.skipping_quota, Some(10000));
    assert!(!attrs.debug);
}

#[test]
fn init_empty_skips_decode_and_reply() {
    let generated = ic_init(
        &ExportAttributes::default(),
        &sig_with("start", vec![], ReturnShape::Omitted),
    )
    .unwrap();
    let expected = r#"#[cfg_attr(target_family = "wasm", export_name = "canister_init")]
#[cfg_attr(not(target_family = "wasm"), export_name = "canister_init")]
fn __canister_method_start() {
    ic_cdk::setup();
    ic_cdk::spawn(async {
        let result = start();
    });
}
"#;
    assert_eq!(generated.wrapper, expected);
    assert_eq!(generated.interface_attr, "#[::candid::candid_method(init)]");
}

#[test]
fn init_with_arg_still_decodes() {
    let generated = ic_init(
        &ExportAttributes::default(),
        &sig_with("start", vec![named("seed", "u64")], ReturnShape::Omitted),
    )
    .unwrap();
    let expected = r#"#[cfg_attr(target_family = "wasm", export_name = "canister_init")]
#[cfg_attr(not(target_family = "wasm"), export_name = "canister_init")]
fn __canister_method_start() {
    ic_cdk::setup();
    ic_cdk::spawn(async {
        let (seed, ) = ic_cdk::api::call::arg_data(ic_cdk::api::call::ArgDecoderConfig { decoding_quota: None, skipping_quota: Some(10000usize), debug: false });
        let result = start(seed);
    });
}
"#;
    assert_eq!(generated.wrapper, expected);
}

#[test]
fn lifecycle_return_value_rejected() {
    let err = ic_init(
        &ExportAttributes::default(),
        &sig_with("start", vec![], ReturnShape::Single),
    )
    .unwrap_err();
    assert_eq!(err.location, Location::CallSite);
    assert_eq!(err.message, "#[init] function cannot have a return value.");
}

#[test]
fn lifecycle_guard_rejected() {
    let attrs = ExportAttributes {
        guard: Some("is_controller".to_string()),
        ..ExportAttributes::default()
    };
    let err = ic_init(&attrs, &sig_with("start", vec![], ReturnShape::Omitted)).unwrap_err();
    assert_eq!(err.location, Location::Attribute);
    assert_eq!(err.message, "#[init] cannot have a guard function.");
}

#[test]
fn receiver_rejected_query() {
    let err = ic_query(
        &ExportAttributes::default(),
        &sig_with("query", vec![FnParam::Receiver], ReturnShape::Omitted),
    )
    .unwrap_err();
    assert_eq!(err.location, Location::Parameter(0));
    assert_eq!(
        err.message,
        "#[query] cannot be above functions with `self` as a parameter."
    );
}

#[test]
fn receiver_rejected_update() {
    let err = ic_update(
        &ExportAttributes::default(),
        &sig_with(
            "go",
            vec![named("a", "u8"), FnParam::Receiver],
            ReturnShape::Omitted,
        ),
    )
    .unwrap_err();
    assert_eq!(err.location, Location::Parameter(1));
    assert_eq!(
        err.message,
        "#[update] cannot be above functions with `self` as a parameter."
    );
}

#[test]
fn generics_rejected() {
    let mut sig = sig_with("query", vec![], ReturnShape::Omitted);
    sig.generic_params = 1;
    let err = ic_query(&ExportAttributes::default(), &sig).unwrap_err();
    assert_eq!(err.location, Location::Generics);
    assert_eq!(
        err.message,
        "#[query] must be above a function with no generic parameters."
    );
}

#[test]
fn reserved_name_rejected() {
    let attrs = ExportAttributes {
        name: Some("<ic-cdk internal> timer".to_string()),
        ..ExportAttributes::default()
    };
    let err = ic_update(&attrs, &sig_with("timer", vec![], ReturnShape::Omitted)).unwrap_err();
    assert_eq!(err.location, Location::CallSite);
    assert_eq!(
        err.message,
        "Functions starting with `<ic-cdk internal>` are reserved for CDK internal use."
    );
}

#[test]
fn reserved_name_rejected_for_composite_query() {
    let attrs = ExportAttributes {
        name: Some("<ic-cdk internal> peek".to_string()),
        composite: true,
        ..ExportAttributes::default()
    };
    let err = ic_query(&attrs, &sig_with("peek", vec![], ReturnShape::Omitted)).unwrap_err();
    assert_eq!(err.location, Location::CallSite);
    assert_eq!(
        err.message,
        "Functions starting with `<ic-cdk internal>` are reserved for CDK internal use."
    );
}

#[test]
fn composite_query_symbols() {
    let attrs = ExportAttributes {
        composite: true,
        ..ExportAttributes::default()
    };
    let generated = ic_query(&attrs, &sig_with("probe", vec![], ReturnShape::Omitted)).unwrap();
    assert!(generated
        .wrapper
        .contains("export_name = \"canister_composite_query probe\""));
    assert!(generated
        .wrapper
        .contains("export_name = \"canister_composite_query.probe\""));
    assert_eq!(
        generated.interface_attr,
        "#[::candid::candid_method(composite_query, rename = \"probe\")]"
    );
}

#[test]
fn host_symbol_sanitizes_hyphens() {
    let attrs = ExportAttributes {
        name: Some("my-query".to_string()),
        ..ExportAttributes::default()
    };
    let generated = ic_query(&attrs, &sig_with("q", vec![], ReturnShape::Omitted)).unwrap();
    assert!(generated
        .wrapper
        .contains("export_name = \"canister_query my-query\""));
    assert!(generated
        .wrapper
        .contains("export_name = \"canister_query.my_query\""));
}

#[test]
fn unnamed_parameter_placeholder() {
    let generated = ic_query(
        &ExportAttributes::default(),
        &sig_with(
            "query",
            vec![named("a", "u32"), unnamed("(u8, u8)")],
            ReturnShape::Omitted,
        ),
    )
    .unwrap();
    assert!(generated.wrapper.contains("let (a, __unnamed_arg_1, ) ="));
    assert!(generated.wrapper.contains("query(a, __unnamed_arg_1)"));
}

#[test]
fn transform_twice_is_byte_identical() {
    let attrs = ExportAttributes {
        guard: Some("guardian".to_string()),
        decoding_quota: Some(7),
        ..ExportAttributes::default()
    };
    let sig = sig_with(
        "step",
        vec![named("n", "u64"), unnamed("Vec<u8>")],
        ReturnShape::Tuple(3),
    );
    let first = dfn_macro(MethodType::Update, &attrs, &sig).unwrap();
    let second = dfn_macro(MethodType::Update, &attrs, &sig).unwrap();
    assert_eq!(first.wrapper, second.wrapper);
    assert_eq!(first.interface_attr, second.interface_attr);
}

#[test]
fn manual_reply_suppresses_encoding() {
    let attrs = ExportAttributes {
        manual_reply: true,
        ..ExportAttributes::default()
    };
    let generated = ic_query(&attrs, &sig_with("q", vec![], ReturnShape::Single)).unwrap();
    assert!(!generated.wrapper.contains("reply"));
    assert!(generated.wrapper.contains("let result = q();"));
}

#[test]
fn guard_runs_before_spawn() {
    let attrs = ExportAttributes {
        guard: Some("only_owner".to_string()),
        ..ExportAttributes::default()
    };
    let generated = ic_update(&attrs, &sig_with("act", vec![], ReturnShape::Omitted)).unwrap();
    let expected = r#"#[cfg_attr(target_family = "wasm", export_name = "canister_update act")]
#[cfg_attr(not(target_family = "wasm"), export_name = "canister_update.act")]
fn __canister_method_act() {
    ic_cdk::setup();
    let r: Result<(), String> = only_owner();
    if let Err(e) = r {
        ic_cdk::api::call::reject(&e);
        return;
    }
    ic_cdk::spawn(async {
        let () = ic_cdk::api::call::arg_data(ic_cdk::api::call::ArgDecoderConfig { decoding_quota: None, skipping_quota: Some(10000usize), debug: false });
        let result = act();
        ic_cdk::api::call::reply(());
    });
}
"#;
    assert_eq!(generated.wrapper, expected);
}

#[test]
fn hidden_suppresses_interface_attr() {
    let attrs = ExportAttributes {
        hidden: true,
        ..ExportAttributes::default()
    };
    let generated = ic_update(&attrs, &sig_with("act", vec![], ReturnShape::Omitted)).unwrap();
    assert_eq!(generated.interface_attr, "");
}

#[test]
fn update_interface_attr_and_heartbeat_has_none() {
    let generated = ic_update(
        &ExportAttributes::default(),
        &sig_with("act", vec![], ReturnShape::Omitted),
    )
    .unwrap();
    assert_eq!(
        generated.interface_attr,
        "#[::candid::candid_method(update, rename = \"act\")]"
    );
    let beat = ic_heartbeat(
        &ExportAttributes::default(),
        &sig_with("beat", vec![], ReturnShape::Omitted),
    )
    .unwrap();
    assert_eq!(beat.interface_attr, "");
    assert!(beat
        .wrapper
        .contains("export_name = \"canister_heartbeat\""));
}

#[test]
fn async_body_is_awaited() {
    let mut sig = sig_with("fetch", vec![], ReturnShape::Single);
    sig.is_async = true;
    let generated = ic_update(&ExportAttributes::default(), &sig).unwrap();
    assert!(generated.wrapper.contains("let result = fetch().await;"));
}

#[test]
fn explicit_quotas_are_rendered() {
    let attrs = ExportAttributes {
        decoding_quota: Some(5),
        skipping_quota: None,
        debug: true,
        ..ExportAttributes::default()
    };
    let generated = ic_query(&attrs, &sig_with("q", vec![], ReturnShape::Omitted)).unwrap();
    assert!(generated.wrapper.contains(
        "ArgDecoderConfig { decoding_quota: Some(5usize), skipping_quota: None, debug: true }"
    ));
}

#[test]
fn lifecycle_classification() {
    assert!(MethodType::Init.is_lifecycle());
    assert!(MethodType::PreUpgrade.is_lifecycle());
    assert!(MethodType::PostUpgrade.is_lifecycle());
    assert!(MethodType::Heartbeat.is_lifecycle());
    assert!(MethodType::InspectMessage.is_lifecycle());
    assert!(MethodType::OnLowWasmMemory.is_lifecycle());
    assert!(!MethodType::Update.is_lifecycle());
    assert!(!MethodType::Query.is_lifecycle());
}

#[test]
fn empty_tuple_return_allowed_for_lifecycle() {
    let generated = ic_init(
        &ExportAttributes::default(),
        &sig_with("start", vec![], ReturnShape::Tuple(0)),
    )
    .unwrap();
    assert!(generated
        .wrapper
        .contains("export_name = \"canister_init\""));
}
