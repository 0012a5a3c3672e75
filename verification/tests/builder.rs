use pushwasm::arguments::{
    AbiType, AggregateFunction, Functions, ImportSource, ManualAggregateImports,
    SharedFunctionOptions, TableFunction, UserFunction,
};
use pushwasm::errors::BuildError;
use pushwasm::query_builder::{build_statement, QueryBuilder};

fn shared(
    name: &str,
    wasm: ImportSource,
    wit: Option<ImportSource>,
    force: bool,
    abi: AbiType,
) -> SharedFunctionOptions {
    SharedFunctionOptions {
        name: name.to_string(),
        wasm_source: wasm,
        wit_source: wit,
        force,
        abi_type: abi,
    }
}

fn hooks(
    init: Option<&str>,
    iter: Option<&str>,
    merge: Option<&str>,
    terminate: Option<&str>,
    serialize: Option<&str>,
    deserialize: Option<&str>,
) -> ManualAggregateImports {
    ManualAggregateImports {
        init: init.map(|s| s.to_string()),
        iter: iter.map(|s| s.to_string()),
        merge: merge.map(|s| s.to_string()),
        terminate: terminate.map(|s| s.to_string()),
        serialize: serialize.map(|s| s.to_string()),
        deserialize: deserialize.map(|s| s.to_string()),
    }
}

fn aggregate(args: Vec<&str>, imports: Option<ManualAggregateImports>) -> AggregateFunction {
    AggregateFunction {
        shared: shared(
            "agg",
            ImportSource::Base64("Zm9v".to_string()),
            None,
            false,
            AbiType::Canonical,
        ),
        return_type: "int".to_string(),
        args: args.into_iter().map(|s| s.to_string()).collect(),
        state_type: "text".to_string(),
        aggregate_imports: imports,
    }
}

#[test]
fn scalar_statement_text() {
    let f = UserFunction {
        shared: shared(
            "myfun",
            ImportSource::Base64("AAAA".to_string()),
            None,
            false,
            AbiType::Canonical,
        ),
    };
    let mut params = Vec::new();
    let sql = f.build(&mut params).unwrap();
    assert_eq!(sql, "CREATE FUNCTION myfun AS WASM ABI CANONICAL FROM BASE64 ?");
    assert_eq!(params, vec!["AAAA".to_string()]);
}

#[test]
fn scalar_with_wit_and_force() {
    let f = UserFunction {
        shared: shared(
            "myfun",
            ImportSource::Base64("AAAA".to_string()),
            Some(ImportSource::Url("https://example.com/x.wit".to_string())),
            true,
            AbiType::Basic,
        ),
    };
    let mut params = Vec::new();
    let sql = f.build(&mut params).unwrap();
    assert_eq!(
        sql,
        "CREATE OR REPLACE FUNCTION myfun AS WASM ABI BASIC FROM BASE64 ? WITH WIT FROM URL ?"
    );
    assert_eq!(
        params,
        vec!["AAAA".to_string(), "https://example.com/x.wit".to_string()]
    );
}

#[test]
fn table_statement_text() {
    let f = TableFunction {
        shared: shared(
            "rows",
            ImportSource::Base64("AAAA".to_string()),
            None,
            false,
            AbiType::Canonical,
        ),
    };
    let mut params = Vec::new();
    let sql = f.build(&mut params).unwrap();
    assert_eq!(sql, "CREATE FUNCTION rows RETURNS TABLE AS WASM ABI CANONICAL FROM BASE64 ?");
    assert_eq!(params, vec!["AAAA".to_string()]);
}

#[test]
fn placeholders_match_parameters() {
    let with_wit = UserFunction {
        shared: shared(
            "f1",
            ImportSource::Base64("AAAA".to_string()),
            Some(ImportSource::Base64("BBBB".to_string())),
            false,
            AbiType::Canonical,
        ),
    };
    let without_wit = TableFunction {
        shared: shared(
            "f2",
            ImportSource::Url("https://example.com/m.wasm".to_string()),
            None,
            true,
            AbiType::Basic,
        ),
    };
    let mut p1 = Vec::new();
    let q1 = with_wit.build(&mut p1).unwrap();
    assert_eq!(q1.matches('?').count(), p1.len());
    assert_eq!(p1.len(), 2);
    let wasm_clause = q1.find("FROM BASE64 ?").unwrap();
    let wit_clause = q1.find("WITH WIT").unwrap();
    assert!(wasm_clause < wit_clause);
    let mut p2 = Vec::new();
    let q2 = without_wit.build(&mut p2).unwrap();
    assert_eq!(q2.matches('?').count(), p2.len());
    assert_eq!(p2.len(), 1);
}

#[test]
fn building_twice_is_identical() {
    let f = Functions::Udaf(aggregate(
        vec!["int", "text"],
        Some(hooks(Some("i"), Some("u"), Some("m"), Some("t"), None, None)),
    ));
    let first = build_statement(&f).unwrap();
    let second = build_statement(&f).unwrap();
    assert_eq!(first.sql_text, second.sql_text);
    assert_eq!(first.parameters, second.parameters);
}

#[test]
fn aggregate_single_argument_is_bare() {
    let f = aggregate(
        vec!["int"],
        Some(hooks(Some("i"), Some("u"), Some("m"), Some("t"), None, None)),
    );
    let mut params = Vec::new();
    let sql = f.build(&mut params).unwrap();
    assert!(sql.contains("agg(int)"), "unexpected statement: {sql}");
    assert!(!sql.contains("agg(a int)"));
}

#[test]
fn aggregate_arguments_get_generated_names() {
    let f = aggregate(
        vec!["int", "int", "int"],
        Some(hooks(Some("i"), Some("u"), Some("m"), Some("t"), None, None)),
    );
    let mut params = Vec::new();
    let sql = f.build(&mut params).unwrap();
    assert!(sql.contains("agg(a int,b int,c int)"), "unexpected statement: {sql}");
}

#[test]
fn aggregate_full_statement_text() {
    let f = aggregate(
        vec!["int", "text"],
        Some(hooks(Some("i1"), Some("i2"), Some("mg"), Some("tm"), None, None)),
    );
    let mut params = Vec::new();
    let sql = f.build(&mut params).unwrap();
    assert_eq!(
        sql,
        "CREATE AGGREGATE agg(a int,b text) RETURNS int WITH STATE text AS WASM ABI CANONICAL \
         FROM BASE64 ? INITIALIZE WITH i1 ITERATE WITH i2 MERGE WITH mg TERMINATE WITH tm"
    );
    assert_eq!(params, vec!["Zm9v".to_string()]);
}

#[test]
fn aggregate_serde_pair_is_emitted() {
    let f = aggregate(
        vec!["int"],
        Some(hooks(Some("i"), Some("u"), Some("m"), Some("t"), Some("sz"), Some("dz"))),
    );
    let mut params = Vec::new();
    let sql = f.build(&mut params).unwrap();
    assert!(sql.ends_with("SERIALIZE WITH sz DESERIALIZE WITH dz"), "unexpected: {sql}");
}

#[test]
fn aggregate_27_arguments_fail() {
    let args: Vec<&str> = std::iter::repeat("int").take(27).collect();
    let f = aggregate(
        args,
        Some(hooks(Some("i"), Some("u"), Some("m"), Some("t"), None, None)),
    );
    let mut params = Vec::new();
    let r = f.build(&mut params);
    assert!(matches!(r, Err(BuildError::TooManyArguments)));
    assert!(params.is_empty());
}

#[test]
fn aggregate_26_arguments_pass() {
    let args: Vec<&str> = std::iter::repeat("int").take(26).collect();
    let f = aggregate(
        args,
        Some(hooks(Some("i"), Some("u"), Some("m"), Some("t"), None, None)),
    );
    let mut params = Vec::new();
    let sql = f.build(&mut params).unwrap();
    assert!(sql.contains("(a int,b int"));
    assert!(sql.contains("z int)"));
}

#[test]
fn aggregate_missing_terminate_is_reported() {
    let f = aggregate(
        vec!["int"],
        Some(hooks(Some("i"), Some("u"), Some("m"), None, None, None)),
    );
    let mut params = Vec::new();
    let r = f.build(&mut params);
    match r {
        Err(BuildError::MissingRequiredHook(role)) => assert_eq!(role, "terminate"),
        other => panic!("expected MissingRequiredHook, got {other:?}"),
    }
}

#[test]
fn aggregate_unpaired_serialize_is_rejected() {
    let f = aggregate(
        vec!["int"],
        Some(hooks(Some("i"), Some("u"), Some("m"), Some("t"), Some("sz"), None)),
    );
    let mut params = Vec::new();
    let r = f.build(&mut params);
    assert!(matches!(r, Err(BuildError::InconsistentHookPairing)));
}

#[test]
fn aggregate_without_hooks_or_wit_fails() {
    let f = aggregate(vec!["int"], None);
    let mut params = Vec::new();
    let r = f.build(&mut params);
    assert!(matches!(r, Err(BuildError::MissingConfiguration)));
}

#[test]
fn force_replace_prefixes_every_kind() {
    let opts = || {
        shared(
            "f",
            ImportSource::Base64("AAAA".to_string()),
            None,
            true,
            AbiType::Canonical,
        )
    };
    let kinds = vec![
        Functions::Udf(UserFunction { shared: opts() }),
        Functions::Tvf(TableFunction { shared: opts() }),
        Functions::Udaf(AggregateFunction {
            shared: opts(),
            return_type: "int".to_string(),
            args: vec!["int".to_string()],
            state_type: "text".to_string(),
            aggregate_imports: Some(hooks(
                Some("i"),
                Some("u"),
                Some("m"),
                Some("t"),
                None,
                None,
            )),
        }),
    ];
    for f in kinds {
        let st = build_statement(&f).unwrap();
        assert!(
            st.sql_text.starts_with("CREATE OR REPLACE "),
            "unexpected: {}",
            st.sql_text
        );
    }
}

#[test]
fn local_bytes_are_base64_encoded() {
    let f = UserFunction {
        shared: shared(
            "enc",
            ImportSource::Bytes(b"hello".to_vec()),
            None,
            false,
            AbiType::Canonical,
        ),
    };
    let mut params = Vec::new();
    let sql = f.build(&mut params).unwrap();
    assert_eq!(sql, "CREATE FUNCTION enc AS WASM ABI CANONICAL FROM BASE64 ?");
    assert_eq!(params, vec!["aGVsbG8=".to_string()]);
}

#[test]
fn abi_keywords() {
    assert_eq!(AbiType::Basic.sql_text(), "BASIC");
    assert_eq!(AbiType::Canonical.sql_text(), "CANONICAL");
}

#[test]
fn error_messages_name_the_failure() {
    let e = BuildError::MissingRequiredHook("terminate".to_string());
    assert_eq!(e.message(), "aggregate functions require a terminate function");
    let a = BuildError::AmbiguousMemberFunction("init-b".to_string(), "init_a".to_string());
    assert_eq!(a.message(), "duplicate match for function name: init-b vs init_a");
}
