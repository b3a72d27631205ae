use lib::error::ParamError;
use lib::param::QueryParam;
use lib::params::QueryParams;

#[test]
fn encode_root_covers_every_variant() -> Result<(), ParamError> {
    assert_eq!(QueryParam::Null.encode()?, "\\N");
    assert_eq!(QueryParam::Bool(true).encode()?, "true");
    assert_eq!(QueryParam::Bool(false).encode()?, "false");
    assert_eq!(QueryParam::Int64(-42).encode()?, "-42");
    assert_eq!(QueryParam::UInt64(42).encode()?, "42");
    assert_eq!(QueryParam::Float64(1.5_f64.to_string()).encode()?, "1.5");
    assert_eq!(QueryParam::Text(String::new()).encode()?, "");
    assert_eq!(QueryParam::Text("hello".into()).encode()?, "hello");
    assert_eq!(QueryParam::Text("it's".into()).encode()?, "it's");
    assert_eq!(QueryParam::Text(r"a\b".into()).encode()?, r"a\b");
    assert_eq!(QueryParam::raw("").encode()?, "");
    assert_eq!(QueryParam::raw("(7,'x')").encode()?, "(7,'x')");
    assert_eq!(QueryParam::raw("[1, 2, 3]").encode()?, "[1, 2, 3]");
    assert_eq!(QueryParam::Array(vec![]).encode()?, "[]");
    assert_eq!(
        QueryParam::Array(vec![QueryParam::Int64(1), QueryParam::Int64(2)]).encode()?,
        "[1, 2]"
    );
    Ok(())
}

#[test]
fn encode_nested_covers_every_variant_via_array() -> Result<(), ParamError> {
    assert_eq!(
        QueryParam::Array(vec![QueryParam::Null]).encode()?,
        "[NULL]"
    );
    assert_eq!(
        QueryParam::Array(vec![QueryParam::Bool(true), QueryParam::Bool(false)]).encode()?,
        "[true, false]"
    );
    assert_eq!(
        QueryParam::Array(vec![QueryParam::Int64(-1), QueryParam::UInt64(2)]).encode()?,
        "[-1, 2]"
    );
    assert_eq!(
        QueryParam::Array(vec![QueryParam::Float64(1.5_f64.to_string())]).encode()?,
        "[1.5]"
    );
    assert_eq!(
        QueryParam::Array(vec![QueryParam::Text(String::new())]).encode()?,
        "['']"
    );
    assert_eq!(
        QueryParam::Array(vec![QueryParam::Text("hello".into())]).encode()?,
        "['hello']"
    );
    assert_eq!(
        QueryParam::Array(vec![QueryParam::raw("(7,'x')")]).encode()?,
        "[(7,'x')]"
    );
    assert_eq!(
        QueryParam::Array(vec![QueryParam::Array(vec![
            QueryParam::Int64(1),
            QueryParam::Int64(2),
        ])])
        .encode()?,
        "[[1, 2]]"
    );
    Ok(())
}

#[test]
fn encode_nested_escapes_quotes_and_backslashes_in_text() -> Result<(), ParamError> {
    assert_eq!(
        QueryParam::Array(vec![QueryParam::Text("'".into())]).encode()?,
        r"['\'']"
    );
    assert_eq!(
        QueryParam::Array(vec![QueryParam::Text(r"\".into())]).encode()?,
        r"['\\']"
    );
    assert_eq!(
        QueryParam::Array(vec![QueryParam::Text("it's".into())]).encode()?,
        r"['it\'s']"
    );
    assert_eq!(
        QueryParam::Array(vec![QueryParam::Text(r"a\b".into())]).encode()?,
        r"['a\\b']"
    );
    assert_eq!(
        QueryParam::Array(vec![QueryParam::Text(r"'\".into())]).encode()?,
        r"['\'\\']"
    );
    assert_eq!(
        QueryParam::Array(vec![
            QueryParam::Text("a".into()),
            QueryParam::Text("b".into()),
        ])
        .encode()?,
        "['a', 'b']"
    );
    Ok(())
}

#[test]
fn encode_array_mixed_and_nested_shapes() -> Result<(), ParamError> {
    assert_eq!(
        QueryParam::Array(vec![
            QueryParam::Int64(1),
            QueryParam::Null,
            QueryParam::Text("x".into()),
            QueryParam::Bool(true),
        ])
        .encode()?,
        "[1, NULL, 'x', true]"
    );
    assert_eq!(
        QueryParam::Array(vec![
            QueryParam::Array(vec![QueryParam::Int64(1), QueryParam::Int64(2)]),
            QueryParam::Array(vec![QueryParam::Int64(3), QueryParam::Int64(4)]),
        ])
        .encode()?,
        "[[1, 2], [3, 4]]"
    );
    assert_eq!(
        QueryParam::Array(vec![QueryParam::Array(vec![QueryParam::Text(
            "it's".into()
        )])])
        .encode()?,
        r"[['it\'s']]"
    );
    Ok(())
}

#[test]
fn from_option_none_encodes_as_root_null() -> Result<(), ParamError> {
    let value: Option<i64> = None;
    assert_eq!(QueryParam::from(value).encode()?, "\\N");
    Ok(())
}

#[test]
fn from_vec_and_slice_encode_as_arrays() -> Result<(), ParamError> {
    assert_eq!(QueryParam::from(Vec::<u64>::new()).encode()?, "[]");
    assert_eq!(QueryParam::from(vec![1_u64, 2, 3]).encode()?, "[1, 2, 3]");
    assert_eq!(QueryParam::from(vec![1_i32, 2, 3]).encode()?, "[1, 2, 3]");
    assert_eq!(
        QueryParam::from([4_i64, 5, 6].as_slice()).encode()?,
        "[4, 5, 6]"
    );
    assert_eq!(
        QueryParam::from(vec!["a".to_owned(), "b".to_owned()]).encode()?,
        "['a', 'b']"
    );
    let values: Vec<Option<i64>> = vec![Some(1), None, Some(3)];
    assert_eq!(QueryParam::from(values).encode()?, "[1, NULL, 3]");
    assert_eq!(
        QueryParam::from(vec![vec![1_u64, 2], vec![3, 4]]).encode()?,
        "[[1, 2], [3, 4]]"
    );
    Ok(())
}

#[test]
fn from_vec_builds_array_variant() {
    assert_eq!(
        QueryParam::from(vec![1_i64, 2]),
        QueryParam::Array(vec![QueryParam::Int64(1), QueryParam::Int64(2)])
    );
}

#[test]
fn query_params_builder_collects_mixed_types() {
    let params = QueryParams::new().bind("x", 5_u64).bind("label", "ok");
    let collected: Vec<_> = params.into_iter().collect();
    assert_eq!(collected.len(), 2);
    assert_eq!(collected[0].0, "x");
    assert_eq!(collected[0].1, QueryParam::UInt64(5));
    assert_eq!(collected[1].0, "label");
    assert_eq!(collected[1].1, QueryParam::Text("ok".into()));
}
