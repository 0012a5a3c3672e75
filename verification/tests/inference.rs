use pushwasm::arguments::{
    AbiType, AggregateFunction, ImportSource, SharedFunctionOptions,
};
use pushwasm::errors::BuildError;
use pushwasm::query_builder::{
    try_extract_member_functions_from_wit, MemberFunction, QueryBuilder,
};

fn wit_aggregate(wit: ImportSource) -> AggregateFunction {
    AggregateFunction {
        shared: SharedFunctionOptions {
            name: "agg".to_string(),
            wasm_source: ImportSource::Base64("Zm9v".to_string()),
            wit_source: Some(wit),
            force: false,
            abi_type: AbiType::Canonical,
        },
        return_type: "int".to_string(),
        args: vec!["int".to_string()],
        state_type: "text".to_string(),
        aggregate_imports: None,
    }
}

#[test]
fn infers_the_four_required_hooks() {
    let wit = "new-state: func() -> state\n\
               update-state: func(s: state, v: s32) -> state\n\
               merge-state: func(a: state, b: state) -> state\n\
               get-result: func(s: state) -> s32\n";
    let m = try_extract_member_functions_from_wit(wit).unwrap();
    assert_eq!(m.init.as_deref(), Some("new_state"));
    assert_eq!(m.iter.as_deref(), Some("update_state"));
    assert_eq!(m.merge.as_deref(), Some("merge_state"));
    assert_eq!(m.terminate.as_deref(), Some("get_result"));
    assert!(m.serialize.is_none());
    assert!(m.deserialize.is_none());
    assert!(m.validate().is_ok());
}

#[test]
fn inferred_hooks_build_the_statement() {
    let wit = "new-state: func() -> state\n\
               update-state: func(s: state, v: s32) -> state\n\
               merge-state: func(a: state, b: state) -> state\n\
               get-result: func(s: state) -> s32\n";
    let f = wit_aggregate(ImportSource::Bytes(wit.as_bytes().to_vec()));
    let mut params = Vec::new();
    let sql = f.build(&mut params).unwrap();
    assert!(
        sql.ends_with(
            "INITIALIZE WITH new_state ITERATE WITH update_state \
             MERGE WITH merge_state TERMINATE WITH get_result"
        ),
        "unexpected: {sql}"
    );
    assert_eq!(params.len(), 2);
    assert_eq!(params[0], "Zm9v");
}

#[test]
fn duplicate_role_match_is_ambiguous() {
    let wit = "init-a: func()\ninit-b: func()\n";
    let r = try_extract_member_functions_from_wit(wit);
    match r {
        Err(BuildError::AmbiguousMemberFunction(new_name, prev)) => {
            assert_eq!(new_name, "init-b");
            assert_eq!(prev, "init_a");
        },
        other => panic!("expected AmbiguousMemberFunction, got {other:?}"),
    }
}

#[test]
fn lines_without_func_marker_are_ignored() {
    let wit = "init\nnew-state stuff\ninterface wit {\n}\n";
    let m = try_extract_member_functions_from_wit(wit).unwrap();
    assert!(m.init.is_none());
    assert!(m.iter.is_none());
}

#[test]
fn serialize_pair_is_inferred() {
    let wit = "new: func()\nadd: func()\nmerge: func()\nfinalize: func()\n\
               encode-state: func()\ndecode-state: func()\n";
    let m = try_extract_member_functions_from_wit(wit).unwrap();
    assert_eq!(m.serialize.as_deref(), Some("encode_state"));
    assert_eq!(m.deserialize.as_deref(), Some("decode_state"));
    assert!(m.validate().is_ok());
}

#[test]
fn classification_priority_order() {
    assert_eq!(MemberFunction::from_name("init_decode"), Some(MemberFunction::Init));
    assert_eq!(MemberFunction::from_name("deserialize-state"), Some(MemberFunction::Deserialize));
    assert_eq!(MemberFunction::from_name("serialize-state"), Some(MemberFunction::Serialize));
    assert_eq!(MemberFunction::from_name("update"), Some(MemberFunction::Iterate));
    assert_eq!(MemberFunction::from_name("merge"), Some(MemberFunction::Merge));
    assert_eq!(MemberFunction::from_name("finalize"), Some(MemberFunction::Terminate));
    assert_eq!(MemberFunction::from_name("init-wit"), None);
    assert_eq!(MemberFunction::from_name("unrelated"), None);
}
