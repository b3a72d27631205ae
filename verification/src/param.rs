//! ClickHouse query parameter values for `{name:Type}` placeholders, and
//! their text encoding.
//!
//! Values are encoded as strings for the libchdb C API. chDB parses them and
//! substitutes them in the query during planning.
use vstd::prelude::*;

use crate::error::ParamError;
use crate::text::{
    decimal, digits_value, lemma_decimal_reads_back, lemma_quoted_reads_back,
    lemma_signed_decimal_reads_back, push_char, push_decimal, push_quoted, push_signed_decimal,
    quoted, read_signed_decimal, signed_decimal, unquoted,
};

verus! {

/// What a [`QueryParam`] holds, as a mathematical value.
pub ghost enum ParamValue {
    Null,
    Bool(bool),
    Int64(i64),
    UInt64(u64),
    Float64(Seq<char>),
    Text(Seq<char>),
    Raw(Seq<char>),
    Array(Seq<ParamValue>),
}

/// A value bound to a `{name:Type}` placeholder in a parameterized query.
///
/// Use [`From`] conversions for scalars, strings, options, and arrays. For
/// pre-formatted ClickHouse literals (tuples, etc.), use [`Self::raw`].
#[derive(Debug, PartialEq)]
pub enum QueryParam {
    /// SQL NULL for `Nullable(...)` placeholders (`\N`).
    Null,
    Bool(bool),
    Int64(i64),
    UInt64(u64),
    /// A floating-point value, held as decimal text. Any string is accepted
    /// here and written out verbatim, at the root and inside arrays; to build
    /// one from an `f64`, store the text that Rust's `Display` writes for it
    /// (the C-side layer's `float64_param` does so). Equality and `Debug` of
    /// this variant go by that text.
    Float64(String),
    /// Raw text for `String`, `Date`, `Identifier`, and similar placeholders.
    Text(String),
    /// Pre-formatted ClickHouse literal (e.g. `(7,'x')`, `[1, 2, 3]`).
    Raw(String),
    /// ClickHouse `Array(...)` value, encoded as `[...]`.
    Array(Vec<QueryParam>),
}

/// The mathematical value of a parameter.
pub open spec fn param_value(p: QueryParam) -> ParamValue
    decreases p,
{
    match p {
        QueryParam::Null => ParamValue::Null,
        QueryParam::Bool(b) => ParamValue::Bool(b),
        QueryParam::Int64(v) => ParamValue::Int64(v),
        QueryParam::UInt64(v) => ParamValue::UInt64(v),
        QueryParam::Float64(t) => ParamValue::Float64(t@),
        QueryParam::Text(t) => ParamValue::Text(t@),
        QueryParam::Raw(t) => ParamValue::Raw(t@),
        QueryParam::Array(vs) => ParamValue::Array(
            Seq::new(
                vs@.len(),
                |i: int|
                    if 0 <= i < vs@.len() {
                        param_value(vs@[i])
                    } else {
                        ParamValue::Null
                    },
            ),
        ),
    }
}

impl View for QueryParam {
    type V = ParamValue;

    open spec fn view(&self) -> ParamValue {
        param_value(*self)
    }
}

/// The values of a sequence of parameters.
pub open spec fn values_of(ps: Seq<QueryParam>) -> Seq<ParamValue> {
    ps.map_values(|p: QueryParam| p@)
}

/// Joins `parts` with `sep` between each two neighbours.
pub open spec fn join(parts: Seq<Seq<char>>, sep: Seq<char>) -> Seq<char>
    decreases parts.len(),
{
    if parts.len() == 0 {
        Seq::empty()
    } else if parts.len() == 1 {
        parts[0]
    } else {
        join(parts.drop_last(), sep) + sep + parts.last()
    }
}

/// The separator between the elements of an array literal.
pub open spec fn element_separator() -> Seq<char> {
    seq![',', ' ']
}

/// An array literal made of already encoded elements: `[a, b, c]`.
pub open spec fn bracketed(parts: Seq<Seq<char>>) -> Seq<char> {
    seq!['['] + join(parts, element_separator()) + seq![']']
}

/// The text of a value inside an array literal: strings quoted and escaped,
/// NULL written out, arrays nested.
pub open spec fn nested_text(v: ParamValue) -> Seq<char>
    decreases v, 1int,
{
    match v {
        ParamValue::Null => seq!['N', 'U', 'L', 'L'],
        ParamValue::Bool(b) => bool_text(b),
        ParamValue::Int64(i) => signed_decimal(i as int),
        ParamValue::UInt64(u) => decimal(u as nat),
        ParamValue::Float64(t) => t,
        ParamValue::Text(t) => quoted(t),
        ParamValue::Raw(t) => t,
        ParamValue::Array(_) => bracketed(element_texts(v)),
    }
}

/// The encoded elements of an array value (empty for any other value).
pub open spec fn element_texts(v: ParamValue) -> Seq<Seq<char>>
    decreases v, 0int,
{
    match v {
        ParamValue::Array(vs) => Seq::new(
            vs.len(),
            |i: int|
                if 0 <= i < vs.len() {
                    nested_text(vs[i])
                } else {
                    Seq::empty()
                },
        ),
        _ => Seq::empty(),
    }
}

/// The encoded elements of a sequence of values.
pub open spec fn nested_texts(vs: Seq<ParamValue>) -> Seq<Seq<char>> {
    Seq::new(vs.len(), |i: int| nested_text(vs[i]))
}

/// An array is written as `[`, the nested texts of its elements in order
/// with `, ` between them, and `]`, at the root as inside another array.
pub proof fn lemma_array_text(vs: Seq<ParamValue>)
    ensures
        nested_text(ParamValue::Array(vs)) == bracketed(nested_texts(vs)),
        root_text(ParamValue::Array(vs)) == bracketed(nested_texts(vs)),
{
    assert(element_texts(ParamValue::Array(vs)) =~= nested_texts(vs));
}

/// The text of a boolean.
pub open spec fn bool_text(b: bool) -> Seq<char> {
    if b {
        seq!['t', 'r', 'u', 'e']
    } else {
        seq!['f', 'a', 'l', 's', 'e']
    }
}

/// The text of a value at the root of a parameter: strings unquoted, NULL as
/// `\N`, everything else as inside an array.
pub open spec fn root_text(v: ParamValue) -> Seq<char> {
    match v {
        ParamValue::Null => seq!['\\', 'N'],
        ParamValue::Text(t) => t,
        _ => nested_text(v),
    }
}

/// At the root a string stands unquoted and NULL is `\N`; inside an array a
/// string is quoted and NULL is `NULL`; every other value is written the
/// same in both places.
pub proof fn lemma_root_and_nested_rules(v: ParamValue)
    ensures
        root_text(ParamValue::Null) == seq!['\\', 'N'],
        nested_text(ParamValue::Null) == seq!['N', 'U', 'L', 'L'],
        v is Text ==> root_text(v) == v->Text_0 && nested_text(v) == quoted(v->Text_0),
        !(v is Null) && !(v is Text) ==> root_text(v) == nested_text(v),
{
}

/// A float's text passes through unchanged, at the root and inside arrays.
pub proof fn lemma_float_text_passes_through(t: Seq<char>)
    ensures
        root_text(ParamValue::Float64(t)) == t,
        nested_text(ParamValue::Float64(t)) == t,
{
}

/// Booleans are written `true` and `false`, at the root and inside arrays.
pub proof fn lemma_bool_text(b: bool)
    ensures
        root_text(ParamValue::Bool(b)) == (if b {
            seq!['t', 'r', 'u', 'e']
        } else {
            seq!['f', 'a', 'l', 's', 'e']
        }),
        nested_text(ParamValue::Bool(b)) == root_text(ParamValue::Bool(b)),
{
}

/// The empty array is written `[]`, and adding an element to an array adds
/// its nested text just before the closing bracket, after a `, ` when the
/// array already had elements: so every element is written, in order.
pub proof fn lemma_array_grows_by_element(vs: Seq<ParamValue>, v: ParamValue)
    ensures
        root_text(ParamValue::Array(Seq::empty())) == seq!['[', ']'],
        root_text(ParamValue::Array(vs.push(v))) == root_text(ParamValue::Array(vs)).drop_last() + (
        if vs.len() == 0 {
            Seq::<char>::empty()
        } else {
            seq![',', ' ']
        }) + nested_text(v) + seq![']'],
        nested_text(ParamValue::Array(vs.push(v))) == root_text(ParamValue::Array(vs.push(v))),
{
    lemma_array_text(Seq::empty());
    lemma_array_text(vs);
    lemma_array_text(vs.push(v));
    let parts = nested_texts(vs);
    let more = nested_texts(vs.push(v));
    assert(more =~= parts.push(nested_text(v)));
    assert(more.drop_last() =~= parts);
    assert(nested_texts(Seq::<ParamValue>::empty()) =~= Seq::<Seq<char>>::empty());
    assert(bracketed(Seq::<Seq<char>>::empty()) =~= seq!['[', ']']);
    assert(bracketed(parts).drop_last() =~= seq!['['] + join(parts, element_separator()));
    if vs.len() == 0 {
        assert(join(parts, element_separator()) =~= Seq::<char>::empty());
        assert(join(more, element_separator()) == nested_text(v));
    } else {
        assert(join(more, element_separator()) == join(parts, element_separator())
            + element_separator() + nested_text(v));
    }
    assert(bracketed(more) =~= bracketed(parts).drop_last() + (if vs.len() == 0 {
        Seq::<char>::empty()
    } else {
        seq![',', ' ']
    }) + nested_text(v) + seq![']']);
}

/// A raw literal passes through unchanged, at the root and inside arrays.
pub proof fn lemma_raw_passes_through(s: Seq<char>)
    ensures
        root_text(ParamValue::Raw(s)) == s,
        nested_text(ParamValue::Raw(s)) == s,
{
}

/// Strings and integers survive encoding: the text of a string reads back
/// as the string (through the quoting when nested), and the text of an
/// integer reads back as the integer.
pub proof fn lemma_scalars_read_back(s: Seq<char>, i: i64, u: u64)
    ensures
        root_text(ParamValue::Text(s)) == s,
        unquoted(nested_text(ParamValue::Text(s))) == Some(s),
        read_signed_decimal(root_text(ParamValue::Int64(i))) == i,
        read_signed_decimal(nested_text(ParamValue::Int64(i))) == i,
        digits_value(root_text(ParamValue::UInt64(u))) == u,
        digits_value(nested_text(ParamValue::UInt64(u))) == u,
{
    lemma_quoted_reads_back(s);
    lemma_signed_decimal_reads_back(i as int);
    lemma_decimal_reads_back(u as nat);
}

/// Appends the text of a boolean.
fn push_bool(out: &mut String, b: bool)
    ensures
        final(out)@ == old(out)@ + bool_text(b),
{
    if b {
        push_char(out, 't');
        push_char(out, 'r');
        push_char(out, 'u');
        push_char(out, 'e');
    } else {
        push_char(out, 'f');
        push_char(out, 'a');
        push_char(out, 'l');
        push_char(out, 's');
        push_char(out, 'e');
    }
    assert(final(out)@ =~= old(out)@ + bool_text(b));
}

impl Clone for QueryParam {
    fn clone(&self) -> (r: Self)
        ensures
            r@ == self@,
        decreases self,
    {
        match self {
            QueryParam::Null => QueryParam::Null,
            QueryParam::Bool(b) => QueryParam::Bool(*b),
            QueryParam::Int64(v) => QueryParam::Int64(*v),
            QueryParam::UInt64(v) => QueryParam::UInt64(*v),
            QueryParam::Float64(t) => QueryParam::Float64(t.clone()),
            QueryParam::Text(t) => QueryParam::Text(t.clone()),
            QueryParam::Raw(t) => QueryParam::Raw(t.clone()),
            QueryParam::Array(values) => {
                let mut copies: Vec<QueryParam> = Vec::new();
                let mut i: usize = 0;
                while i < values.len()
                    invariant
                        i <= values@.len(),
                        *self == QueryParam::Array(*values),
                        copies@.len() == i,
                        forall|j: int| 0 <= j < i ==> (#[trigger] copies@[j])@ == values@[j]@,
                    decreases values@.len() - i,
                {
                    proof {
                        vstd::std_specs::vec::axiom_vec_index_decreases(*values, i as int);
                        assert(decreases_to!(*self => (*self)->Array_0));
                    }
                    let c = values[i].clone();
                    copies.push(c);
                    i = i + 1;
                }
                let r = QueryParam::Array(copies);
                assert(r@->Array_0 =~= self@->Array_0);
                r
            },
        }
    }
}

impl QueryParam {
    /// Pass a pre-formatted ClickHouse parameter literal through unchanged.
    pub fn raw(value: &str) -> (r: Self)
        ensures
            r@ == ParamValue::Raw(value@),
    {
        QueryParam::Raw(value.to_owned())
    }

    /// Encode this value as a root-level ClickHouse query parameter string.
    ///
    /// Root strings are unquoted. Nested values inside [`Self::Array`] use
    /// nested rules (quoted strings, `NULL`).
    pub fn encode(&self) -> (r: Result<String, ParamError>)
        ensures
            r matches Ok(text) && text@ == root_text(self@),
    {
        match self {
            QueryParam::Null => {
                let mut out = String::new();
                push_char(&mut out, '\\');
                push_char(&mut out, 'N');
                assert(out@ =~= root_text(self@));
                Ok(out)
            },
            QueryParam::Text(value) => Ok(value.clone()),
            _ => Ok(self.encode_nested()),
        }
    }

    /// Encode this value as an element inside an array/tuple/map literal.
    fn encode_nested(&self) -> (r: String)
        ensures
            r@ == nested_text(self@),
        decreases self,
    {
        match self {
            QueryParam::Null => {
                let mut out = String::new();
                push_char(&mut out, 'N');
                push_char(&mut out, 'U');
                push_char(&mut out, 'L');
                push_char(&mut out, 'L');
                assert(out@ =~= nested_text(self@));
                out
            },
            QueryParam::Bool(b) => {
                let mut out = String::new();
                push_bool(&mut out, *b);
                assert(out@ =~= nested_text(self@));
                out
            },
            QueryParam::Int64(v) => {
                let mut out = String::new();
                push_signed_decimal(&mut out, *v);
                assert(out@ =~= nested_text(self@));
                out
            },
            QueryParam::UInt64(v) => {
                let mut out = String::new();
                push_decimal(&mut out, *v);
                assert(out@ =~= nested_text(self@));
                out
            },
            QueryParam::Float64(value) => value.clone(),
            QueryParam::Text(value) => Self::quote_nested_string(value.as_str()),
            QueryParam::Raw(value) => value.clone(),
            QueryParam::Array(values) => {
                proof {
                    assert(decreases_to!(*self => (*self)->Array_0));
                }
                let r = Self::encode_array(values);
                proof {
                    let vs = self@->Array_0;
                    assert(vs =~= values_of(values@));
                    lemma_array_text(vs);
                }
                r
            },
        }
    }

    fn encode_array(values: &Vec<QueryParam>) -> (r: String)
        ensures
            r@ == bracketed(nested_texts(values_of(values@))),
        decreases values,
    {
        let mut out = String::new();
        push_char(&mut out, '[');
        let ghost parts = nested_texts(values_of(values@));
        let mut i: usize = 0;
        while i < values.len()
            invariant
                i <= values@.len(),
                parts == nested_texts(values_of(values@)),
                out@ == seq!['['] + join(parts.take(i as int), element_separator()),
            decreases values@.len() - i,
        {
            proof {
                vstd::std_specs::vec::axiom_vec_index_decreases(*values, i as int);
            }
            let part = values[i].encode_nested();
            let ghost before = out@;
            if i > 0 {
                push_char(&mut out, ',');
                push_char(&mut out, ' ');
            }
            out.append(part.as_str());
            proof {
                assert(parts.take(i + 1).drop_last() =~= parts.take(i as int));
                if i == 0 {
                    assert(parts.take(1) =~= seq![parts[0]]);
                }
                assert(out@ =~= seq!['['] + join(parts.take(i + 1), element_separator()));
            }
            i = i + 1;
        }
        push_char(&mut out, ']');
        assert(parts.take(values@.len() as int) =~= parts);
        assert(out@ =~= bracketed(parts));
        out
    }

    fn quote_nested_string(value: &str) -> (r: String)
        ensures
            r@ == quoted(value@),
    {
        let mut encoded = String::new();
        push_quoted(&mut encoded, value);
        assert(encoded@ =~= quoted(value@));
        encoded
    }
}

} // verus!
