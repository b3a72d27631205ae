//! Conversions of Rust values into query parameters.
use vstd::prelude::*;

use crate::param::{param_value, ParamValue, QueryParam};

verus! {

/// A Rust value that can stand for a query parameter.
pub trait IntoParam {
    /// The parameter value that `self` stands for.
    spec fn param_view(&self) -> ParamValue;

    /// Builds the parameter that `self` stands for.
    fn to_param(&self) -> (r: QueryParam)
        ensures
            r@ == self.param_view(),
    ;
}

impl IntoParam for bool {
    open spec fn param_view(&self) -> ParamValue {
        ParamValue::Bool(*self)
    }

    fn to_param(&self) -> (r: QueryParam) {
        QueryParam::Bool(*self)
    }
}

impl IntoParam for i8 {
    open spec fn param_view(&self) -> ParamValue {
        ParamValue::Int64(*self as i64)
    }

    fn to_param(&self) -> (r: QueryParam) {
        QueryParam::Int64(*self as i64)
    }
}

impl IntoParam for i16 {
    open spec fn param_view(&self) -> ParamValue {
        ParamValue::Int64(*self as i64)
    }

    fn to_param(&self) -> (r: QueryParam) {
        QueryParam::Int64(*self as i64)
    }
}

impl IntoParam for i32 {
    open spec fn param_view(&self) -> ParamValue {
        ParamValue::Int64(*self as i64)
    }

    fn to_param(&self) -> (r: QueryParam) {
        QueryParam::Int64(*self as i64)
    }
}

impl IntoParam for i64 {
    open spec fn param_view(&self) -> ParamValue {
        ParamValue::Int64(*self)
    }

    fn to_param(&self) -> (r: QueryParam) {
        QueryParam::Int64(*self)
    }
}

impl IntoParam for u8 {
    open spec fn param_view(&self) -> ParamValue {
        ParamValue::UInt64(*self as u64)
    }

    fn to_param(&self) -> (r: QueryParam) {
        QueryParam::UInt64(*self as u64)
    }
}

impl IntoParam for u16 {
    open spec fn param_view(&self) -> ParamValue {
        ParamValue::UInt64(*self as u64)
    }

    fn to_param(&self) -> (r: QueryParam) {
        QueryParam::UInt64(*self as u64)
    }
}

impl IntoParam for u32 {
    open spec fn param_view(&self) -> ParamValue {
        ParamValue::UInt64(*self as u64)
    }

    fn to_param(&self) -> (r: QueryParam) {
        QueryParam::UInt64(*self as u64)
    }
}

impl IntoParam for u64 {
    open spec fn param_view(&self) -> ParamValue {
        ParamValue::UInt64(*self)
    }

    fn to_param(&self) -> (r: QueryParam) {
        QueryParam::UInt64(*self)
    }
}

impl IntoParam for String {
    open spec fn param_view(&self) -> ParamValue {
        ParamValue::Text(self@)
    }

    fn to_param(&self) -> (r: QueryParam) {
        QueryParam::Text(self.clone())
    }
}

impl<'a> IntoParam for &'a str {
    open spec fn param_view(&self) -> ParamValue {
        ParamValue::Text((*self)@)
    }

    fn to_param(&self) -> (r: QueryParam) {
        QueryParam::Text((*self).to_owned())
    }
}

impl IntoParam for QueryParam {
    open spec fn param_view(&self) -> ParamValue {
        self@
    }

    fn to_param(&self) -> (r: QueryParam) {
        self.clone()
    }
}

impl<'a> IntoParam for &'a QueryParam {
    open spec fn param_view(&self) -> ParamValue {
        (*self)@
    }

    fn to_param(&self) -> (r: QueryParam) {
        (*self).clone()
    }
}

impl<T: IntoParam> IntoParam for Option<T> {
    open spec fn param_view(&self) -> ParamValue {
        match self {
            None => ParamValue::Null,
            Some(value) => value.param_view(),
        }
    }

    fn to_param(&self) -> (r: QueryParam) {
        match self {
            None => QueryParam::Null,
            Some(value) => value.to_param(),
        }
    }
}

/// Converts each element of `values` in order into an array parameter.
fn array_of<T: IntoParam>(values: &[T]) -> (r: QueryParam)
    ensures
        r@ == ParamValue::Array(values@.map_values(|t: T| t.param_view())),
{
    let mut elements: Vec<QueryParam> = Vec::new();
    let mut i: usize = 0;
    while i < values.len()
        invariant
            i <= values@.len(),
            elements@.len() == i,
            forall|j: int| 0 <= j < i ==> (#[trigger] elements@[j])@ == values@[j].param_view(),
        decreases values@.len() - i,
    {
        let element = values[i].to_param();
        elements.push(element);
        i = i + 1;
    }
    let r = QueryParam::Array(elements);
    assert(r@->Array_0 =~= values@.map_values(|t: T| t.param_view()));
    r
}

impl<T: IntoParam> IntoParam for Vec<T> {
    open spec fn param_view(&self) -> ParamValue {
        ParamValue::Array(self@.map_values(|t: T| t.param_view()))
    }

    fn to_param(&self) -> (r: QueryParam) {
        array_of(self.as_slice())
    }
}

impl<'a, T: IntoParam> IntoParam for &'a [T] {
    open spec fn param_view(&self) -> ParamValue {
        ParamValue::Array((*self)@.map_values(|t: T| t.param_view()))
    }

    fn to_param(&self) -> (r: QueryParam) {
        array_of(*self)
    }
}

/// Converting an integer keeps its value: signed integers become `Int64`
/// and unsigned ones `UInt64` of the same number.
pub proof fn lemma_integer_conversions_keep_value(
    a: i8,
    b: i16,
    c: i32,
    d: i64,
    e: u8,
    f: u16,
    g: u32,
    h: u64,
)
    ensures
        a.param_view() is Int64 && a.param_view()->Int64_0 as int == a as int,
        b.param_view() is Int64 && b.param_view()->Int64_0 as int == b as int,
        c.param_view() is Int64 && c.param_view()->Int64_0 as int == c as int,
        d.param_view() is Int64 && d.param_view()->Int64_0 as int == d as int,
        e.param_view() is UInt64 && e.param_view()->UInt64_0 as int == e as int,
        f.param_view() is UInt64 && f.param_view()->UInt64_0 as int == f as int,
        g.param_view() is UInt64 && g.param_view()->UInt64_0 as int == g as int,
        h.param_view() is UInt64 && h.param_view()->UInt64_0 as int == h as int,
{
}

/// Booleans and strings keep their value; `None` becomes NULL and `Some`
/// what its content becomes.
pub proof fn lemma_scalar_conversions_keep_value<T: IntoParam>(
    b: bool,
    s: String,
    t: &str,
    o: Option<T>,
)
    ensures
        b.param_view() == ParamValue::Bool(b),
        s.param_view() == ParamValue::Text(s@),
        t.param_view() == ParamValue::Text(t@),
        o is None ==> o.param_view() == ParamValue::Null,
        o matches Some(x) ==> o.param_view() == x.param_view(),
{
}

/// A vector or slice becomes an array with one element per item, each the
/// conversion of the item at the same place.
pub proof fn lemma_sequence_conversions_keep_items<T: IntoParam>(v: Vec<T>, s: &[T])
    ensures
        v.param_view() is Array,
        v.param_view()->Array_0.len() == v@.len(),
        forall|i: int|
            0 <= i < v@.len() ==> #[trigger] v.param_view()->Array_0[i] == v@[i].param_view(),
        s.param_view() is Array,
        s.param_view()->Array_0.len() == s@.len(),
        forall|i: int|
            0 <= i < s@.len() ==> #[trigger] s.param_view()->Array_0[i] == s@[i].param_view(),
{
}

/// A slice and a vector with the same elements stand for the same array
/// parameter.
pub proof fn lemma_slice_and_vec_agree<T: IntoParam>(s: &[T], v: Vec<T>)
    requires
        s@ == v@,
    ensures
        s.param_view() == v.param_view(),
{
}

impl From<bool> for QueryParam {
    fn from(value: bool) -> (r: Self)
        ensures
            r@ == ParamValue::Bool(value),
    {
        QueryParam::Bool(value)
    }
}

impl vstd::std_specs::convert::FromSpecImpl<bool> for QueryParam {
    open spec fn obeys_from_spec() -> bool {
        true
    }

    open spec fn from_spec(v: bool) -> QueryParam {
        QueryParam::Bool(v)
    }
}

impl From<i8> for QueryParam {
    fn from(value: i8) -> (r: Self)
        ensures
            r@ == ParamValue::Int64(value as i64),
    {
        QueryParam::Int64(value as i64)
    }
}

impl vstd::std_specs::convert::FromSpecImpl<i8> for QueryParam {
    open spec fn obeys_from_spec() -> bool {
        true
    }

    open spec fn from_spec(v: i8) -> QueryParam {
        QueryParam::Int64(v as i64)
    }
}

impl From<i16> for QueryParam {
    fn from(value: i16) -> (r: Self)
        ensures
            r@ == ParamValue::Int64(value as i64),
    {
        QueryParam::Int64(value as i64)
    }
}

impl vstd::std_specs::convert::FromSpecImpl<i16> for QueryParam {
    open spec fn obeys_from_spec() -> bool {
        true
    }

    open spec fn from_spec(v: i16) -> QueryParam {
        QueryParam::Int64(v as i64)
    }
}

impl From<i32> for QueryParam {
    fn from(value: i32) -> (r: Self)
        ensures
            r@ == ParamValue::Int64(value as i64),
    {
        QueryParam::Int64(value as i64)
    }
}

impl vstd::std_specs::convert::FromSpecImpl<i32> for QueryParam {
    open spec fn obeys_from_spec() -> bool {
        true
    }

    open spec fn from_spec(v: i32) -> QueryParam {
        QueryParam::Int64(v as i64)
    }
}

impl From<i64> for QueryParam {
    fn from(value: i64) -> (r: Self)
        ensures
            r@ == ParamValue::Int64(value),
    {
        QueryParam::Int64(value)
    }
}

impl vstd::std_specs::convert::FromSpecImpl<i64> for QueryParam {
    open spec fn obeys_from_spec() -> bool {
        true
    }

    open spec fn from_spec(v: i64) -> QueryParam {
        QueryParam::Int64(v)
    }
}

impl From<u8> for QueryParam {
    fn from(value: u8) -> (r: Self)
        ensures
            r@ == ParamValue::UInt64(value as u64),
    {
        QueryParam::UInt64(value as u64)
    }
}

impl vstd::std_specs::convert::FromSpecImpl<u8> for QueryParam {
    open spec fn obeys_from_spec() -> bool {
        true
    }

    open spec fn from_spec(v: u8) -> QueryParam {
        QueryParam::UInt64(v as u64)
    }
}

impl From<u16> for QueryParam {
    fn from(value: u16) -> (r: Self)
        ensures
            r@ == ParamValue::UInt64(value as u64),
    {
        QueryParam::UInt64(value as u64)
    }
}

impl vstd::std_specs::convert::FromSpecImpl<u16> for QueryParam {
    open spec fn obeys_from_spec() -> bool {
        true
    }

    open spec fn from_spec(v: u16) -> QueryParam {
        QueryParam::UInt64(v as u64)
    }
}

impl From<u32> for QueryParam {
    fn from(value: u32) -> (r: Self)
        ensures
            r@ == ParamValue::UInt64(value as u64),
    {
        QueryParam::UInt64(value as u64)
    }
}

impl vstd::std_specs::convert::FromSpecImpl<u32> for QueryParam {
    open spec fn obeys_from_spec() -> bool {
        true
    }

    open spec fn from_spec(v: u32) -> QueryParam {
        QueryParam::UInt64(v as u64)
    }
}

impl From<u64> for QueryParam {
    fn from(value: u64) -> (r: Self)
        ensures
            r@ == ParamValue::UInt64(value),
    {
        QueryParam::UInt64(value)
    }
}

impl vstd::std_specs::convert::FromSpecImpl<u64> for QueryParam {
    open spec fn obeys_from_spec() -> bool {
        true
    }

    open spec fn from_spec(v: u64) -> QueryParam {
        QueryParam::UInt64(v)
    }
}

impl From<String> for QueryParam {
    fn from(value: String) -> (r: Self)
        ensures
            r@ == ParamValue::Text(value@),
    {
        QueryParam::Text(value)
    }
}

impl vstd::std_specs::convert::FromSpecImpl<String> for QueryParam {
    open spec fn obeys_from_spec() -> bool {
        true
    }

    open spec fn from_spec(v: String) -> QueryParam {
        QueryParam::Text(v)
    }
}

impl<'a> From<&'a str> for QueryParam {
    fn from(value: &'a str) -> (r: Self)
        ensures
            r@ == ParamValue::Text(value@),
    {
        QueryParam::Text(value.to_owned())
    }
}

/// The parameter built from this type is fixed by its value only up to the
/// identity of the strings and vectors inside it, so `from` states its
/// result over the view.
impl<'a> vstd::std_specs::convert::FromSpecImpl<&'a str> for QueryParam {
    open spec fn obeys_from_spec() -> bool {
        false
    }

    open spec fn from_spec(v: &'a str) -> QueryParam {
        choose|p: QueryParam| p@ == ParamValue::Text(v@)
    }
}

impl<'a> From<&'a QueryParam> for QueryParam {
    fn from(value: &'a QueryParam) -> (r: Self)
        ensures
            r@ == value@,
    {
        value.clone()
    }
}

/// The parameter built from this type is fixed by its value only up to the
/// identity of the strings and vectors inside it, so `from` states its
/// result over the view.
impl<'a> vstd::std_specs::convert::FromSpecImpl<&'a QueryParam> for QueryParam {
    open spec fn obeys_from_spec() -> bool {
        false
    }

    open spec fn from_spec(v: &'a QueryParam) -> QueryParam {
        choose|p: QueryParam| p@ == v@
    }
}

impl<T: IntoParam> From<Option<T>> for QueryParam {
    fn from(value: Option<T>) -> (r: Self)
        ensures
            r@ == value.param_view(),
    {
        value.to_param()
    }
}

/// The parameter built from this type is fixed by its value only up to the
/// identity of the strings and vectors inside it, so `from` states its
/// result over the view.
impl<T: IntoParam> vstd::std_specs::convert::FromSpecImpl<Option<T>> for QueryParam {
    open spec fn obeys_from_spec() -> bool {
        false
    }

    open spec fn from_spec(v: Option<T>) -> QueryParam {
        choose|p: QueryParam| p@ == v.param_view()
    }
}

impl<T: IntoParam> From<Vec<T>> for QueryParam {
    fn from(value: Vec<T>) -> (r: Self)
        ensures
            r@ == value.param_view(),
    {
        value.to_param()
    }
}

/// The parameter built from this type is fixed by its value only up to the
/// identity of the strings and vectors inside it, so `from` states its
/// result over the view.
impl<T: IntoParam> vstd::std_specs::convert::FromSpecImpl<Vec<T>> for QueryParam {
    open spec fn obeys_from_spec() -> bool {
        false
    }

    open spec fn from_spec(v: Vec<T>) -> QueryParam {
        choose|p: QueryParam| p@ == v.param_view()
    }
}

impl<'a, T: IntoParam> From<&'a [T]> for QueryParam {
    fn from(value: &'a [T]) -> (r: Self)
        ensures
            r@ == value.param_view(),
    {
        value.to_param()
    }
}

/// The parameter built from this type is fixed by its value only up to the
/// identity of the strings and vectors inside it, so `from` states its
/// result over the view.
impl<'a, T: IntoParam> vstd::std_specs::convert::FromSpecImpl<&'a [T]> for QueryParam {
    open spec fn obeys_from_spec() -> bool {
        false
    }

    open spec fn from_spec(v: &'a [T]) -> QueryParam {
        choose|p: QueryParam| p@ == v.param_view()
    }
}

} // verus!
