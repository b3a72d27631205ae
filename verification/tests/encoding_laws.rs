use lib::convert::IntoParam;
use lib::error::ParamError;
use lib::param::QueryParam;
use lib::params::{EncodedParams, QueryParams};
use lib::text::contains_nul;

#[test]
fn integers_at_their_limits() {
    assert_eq!(QueryParam::Int64(i64::MIN).encode().unwrap(), "-9223372036854775808");
    assert_eq!(QueryParam::Int64(i64::MAX).encode().unwrap(), "9223372036854775807");
    assert_eq!(QueryParam::UInt64(u64::MAX).encode().unwrap(), "18446744073709551615");
    assert_eq!(QueryParam::UInt64(0).encode().unwrap(), "0");
    assert_eq!(QueryParam::Int64(0).encode().unwrap(), "0");
    assert_eq!(QueryParam::Int64(-7).encode().unwrap(), "-7");
    assert_eq!(QueryParam::UInt64(1000).encode().unwrap(), "1000");
}

#[test]
fn integer_text_reads_back() {
    for v in [i64::MIN, -1000, -1, 0, 9, 10, 99, 100, i64::MAX] {
        let text = QueryParam::Int64(v).encode().unwrap();
        assert_eq!(text.parse::<i64>().unwrap(), v);
    }
    for v in [0_u64, 1, 10, 4096, u64::MAX] {
        let text = QueryParam::UInt64(v).encode().unwrap();
        assert_eq!(text.parse::<u64>().unwrap(), v);
    }
}

fn read_quoted(t: &str) -> Option<String> {
    let chars: Vec<char> = t.chars().collect();
    if chars.len() < 2 || chars[0] != '\'' || chars[chars.len() - 1] != '\'' {
        return None;
    }
    let body = &chars[1..chars.len() - 1];
    let mut out = String::new();
    let mut i = 0;
    while i < body.len() {
        match body[i] {
            '\\' if i + 1 < body.len() => {
                out.push(body[i + 1]);
                i += 2;
            }
            '\\' | '\'' => return None,
            c => {
                out.push(c);
                i += 1;
            }
        }
    }
    Some(out)
}

#[test]
fn quoted_text_reads_back() {
    for s in ["", "plain", "it's", r"a\b", r"'\", r"\'", "''", r"\\", "ünï cödé"] {
        let text = QueryParam::Array(vec![QueryParam::Text(s.to_owned())]).encode().unwrap();
        let element = &text[1..text.len() - 1];
        assert_eq!(read_quoted(element), Some(s.to_owned()));
        let specials = s.chars().filter(|c| *c == '\'' || *c == '\\').count();
        assert_eq!(element.chars().count(), s.chars().count() + 2 + specials);
    }
}

#[test]
fn slice_and_vec_convert_alike() {
    let values = vec![Some("a".to_owned()), None];
    assert_eq!(QueryParam::from(values.as_slice()), QueryParam::from(values.clone()));
}

#[test]
fn root_text_is_unquoted_and_raw_passes_through() {
    let s = r"it's \ raw";
    assert_eq!(QueryParam::Text(s.to_owned()).encode().unwrap(), s);
    assert_eq!(QueryParam::raw(s).encode().unwrap(), s);
    assert_eq!(QueryParam::Array(vec![QueryParam::raw(s)]).encode().unwrap(), format!("[{}]", s));
}

#[test]
fn root_null_and_nested_null_differ() {
    assert_eq!(QueryParam::Null.encode().unwrap(), "\\N");
    assert_eq!(QueryParam::Array(vec![QueryParam::Null]).encode().unwrap(), "[NULL]");
}

#[test]
fn conversions_keep_the_value() {
    assert_eq!(QueryParam::from(true), QueryParam::Bool(true));
    assert_eq!(QueryParam::from(-3_i8), QueryParam::Int64(-3));
    assert_eq!(QueryParam::from(-300_i16), QueryParam::Int64(-300));
    assert_eq!(QueryParam::from(i32::MIN), QueryParam::Int64(i32::MIN as i64));
    assert_eq!(QueryParam::from(i64::MIN), QueryParam::Int64(i64::MIN));
    assert_eq!(QueryParam::from(255_u8), QueryParam::UInt64(255));
    assert_eq!(QueryParam::from(65535_u16), QueryParam::UInt64(65535));
    assert_eq!(QueryParam::from(u32::MAX), QueryParam::UInt64(u32::MAX as u64));
    assert_eq!(QueryParam::from(u64::MAX), QueryParam::UInt64(u64::MAX));
    assert_eq!(QueryParam::from("hi".to_owned()), QueryParam::Text("hi".into()));
    assert_eq!(QueryParam::from("hi"), QueryParam::Text("hi".into()));
    assert_eq!(QueryParam::from(Some(4_u8)), QueryParam::UInt64(4));
    let original = QueryParam::Array(vec![QueryParam::Text("a".into()), QueryParam::Null]);
    assert_eq!(QueryParam::from(&original), original);
    assert_eq!(original.clone(), original);
    assert_eq!(
        QueryParam::from(vec![Some("a"), None]),
        QueryParam::Array(vec![QueryParam::Text("a".into()), QueryParam::Null])
    );
    assert_eq!(7_i32.to_param(), QueryParam::Int64(7));
}

#[test]
fn bind_keeps_order_and_earlier_bindings() {
    let params = QueryParams::new()
        .bind("a", 1_i64)
        .bind("b", vec![true, false])
        .bind("a", None::<u8>);
    assert_eq!(params.len(), 3);
    let pairs = params.as_pairs();
    assert_eq!(pairs[0], ("a".to_owned(), QueryParam::Int64(1)));
    assert_eq!(
        pairs[1],
        ("b".to_owned(), QueryParam::Array(vec![QueryParam::Bool(true), QueryParam::Bool(false)]))
    );
    assert_eq!(pairs[2], ("a".to_owned(), QueryParam::Null));
    let copy = params.clone();
    assert_eq!(copy.as_pairs(), params.as_pairs());
    assert_eq!(QueryParams::default().len(), 0);
}

#[test]
fn encoded_params_are_parallel() -> Result<(), ParamError> {
    let params = QueryParams::new()
        .bind("x", 5_u64)
        .bind("label", "ok")
        .bind("tags", vec!["it's"]);
    let encoded = EncodedParams::encode(&params)?;
    assert_eq!(encoded.len(), 3);
    assert_eq!(encoded.names(), ["x", "label", "tags"]);
    assert_eq!(encoded.values(), ["5", "ok", r"['it\'s']"]);
    Ok(())
}

#[test]
fn encoded_params_empty_exposes_null_name_and_value_ptrs() -> Result<(), ParamError> {
    let encoded = EncodedParams::encode(&QueryParams::new())?;
    assert_eq!(encoded.len(), 0);
    assert!(encoded.names().is_empty());
    assert!(encoded.values().is_empty());
    Ok(())
}

#[test]
fn encoded_params_refuse_nul() {
    let in_name = QueryParams::new().bind("a\0b", 1_u64);
    assert!(matches!(EncodedParams::encode(&in_name), Err(ParamError::InteriorNul)));
    let in_value = QueryParams::new().bind("ok", 1_u64).bind("v", "x\0y");
    assert!(matches!(EncodedParams::encode(&in_value), Err(ParamError::InteriorNul)));
    let nested = QueryParams::new().bind("v", vec!["\0"]);
    assert!(matches!(EncodedParams::encode(&nested), Err(ParamError::InteriorNul)));
    assert!(contains_nul("a\0"));
    assert!(!contains_nul("a0"));
}
