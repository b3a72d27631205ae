//! Named parameter sets, and their encoding into the parallel name and value
//! strings that the chDB C API takes.
use vstd::prelude::*;

use crate::convert::IntoParam;
use crate::error::ParamError;
use crate::param::{root_text, ParamValue, QueryParam};
use crate::text::{contains_nul, has_nul};

verus! {

/// Builder for mixed-type parameter maps.
#[derive(Debug)]
pub struct QueryParams {
    pairs: Vec<(String, QueryParam)>,
}

/// The name and value of each pair, in order.
pub open spec fn pairs_view(pairs: Seq<(String, QueryParam)>) -> Seq<(Seq<char>, ParamValue)> {
    pairs.map_values(|pair: (String, QueryParam)| (pair.0@, pair.1@))
}

impl View for QueryParams {
    type V = Seq<(Seq<char>, ParamValue)>;

    closed spec fn view(&self) -> Seq<(Seq<char>, ParamValue)> {
        pairs_view(self.pairs@)
    }
}

impl Default for QueryParams {
    fn default() -> (r: Self)
        ensures
            r@ == Seq::<(Seq<char>, ParamValue)>::empty(),
    {
        let r = QueryParams { pairs: Vec::new() };
        assert(r@ =~= Seq::<(Seq<char>, ParamValue)>::empty());
        r
    }
}

impl Clone for QueryParams {
    fn clone(&self) -> (r: Self)
        ensures
            r@ == self@,
    {
        let mut pairs: Vec<(String, QueryParam)> = Vec::new();
        let mut i: usize = 0;
        while i < self.pairs.len()
            invariant
                i <= self.pairs@.len(),
                pairs@.len() == i,
                forall|j: int|
                    0 <= j < i ==> (#[trigger] pairs@[j]).0@ == self.pairs@[j].0@ && pairs@[j].1@
                        == self.pairs@[j].1@,
            decreases self.pairs@.len() - i,
        {
            let name = self.pairs[i].0.clone();
            let value = self.pairs[i].1.clone();
            pairs.push((name, value));
            i = i + 1;
        }
        let r = QueryParams { pairs };
        assert(r@ =~= self@);
        r
    }
}

impl QueryParams {
    /// An empty parameter set.
    pub fn new() -> (r: Self)
        ensures
            r@ == Seq::<(Seq<char>, ParamValue)>::empty(),
    {
        Self::default()
    }

    /// Adds a binding of `value` to the placeholder `name`, after all earlier
    /// ones.
    pub fn bind<V: IntoParam>(self, name: &str, value: V) -> (r: Self)
        ensures
            r@ == self@.push((name@, value.param_view())),
    {
        let mut params = self;
        let param = value.to_param();
        params.pairs.push((name.to_owned(), param));
        assert(params@ =~= self@.push((name@, value.param_view())));
        params
    }

    /// The number of bindings.
    pub fn len(&self) -> (r: usize)
        ensures
            r == self@.len(),
    {
        self.pairs.len()
    }

    /// The bindings, in the order in which they were made.
    pub fn as_pairs(&self) -> (r: &[(String, QueryParam)])
        ensures
            pairs_view(r@) == self@,
    {
        self.pairs.as_slice()
    }
}

impl IntoIterator for QueryParams {
    type Item = (String, QueryParam);
    type IntoIter = std::vec::IntoIter<(String, QueryParam)>;

    fn into_iter(self) -> (r: Self::IntoIter)
        ensures
            pairs_view(vstd::std_specs::iter::IteratorSpec::remaining(&r)) == self@,
    {
        self.pairs.into_iter()
    }
}

/// A parameter's name and its encoded value.
pub open spec fn encoded_pair(pair: (Seq<char>, ParamValue)) -> (Seq<char>, Seq<char>) {
    (pair.0, root_text(pair.1))
}

/// Whether a parameter's name and encoded value can both be passed as C
/// strings.
pub open spec fn fits_c_strings(pair: (Seq<char>, ParamValue)) -> bool {
    !has_nul(pair.0) && !has_nul(root_text(pair.1))
}

/// Parallel name/value strings ready for `chdb_query_with_params`: the
/// `i`-th value belongs to the `i`-th name, and neither holds a NUL.
pub struct EncodedParams {
    names: Vec<String>,
    values: Vec<String>,
}

impl View for EncodedParams {
    type V = Seq<(Seq<char>, Seq<char>)>;

    closed spec fn view(&self) -> Seq<(Seq<char>, Seq<char>)> {
        Seq::new(self.names@.len(), |i: int| (self.names@[i]@, self.values@[i]@))
    }
}

impl EncodedParams {
    #[verifier::type_invariant]
    closed spec fn parallel(self) -> bool {
        self.names@.len() == self.values@.len()
    }

    /// Encodes every value of `params` for the C API, keeping the order.
    ///
    /// Fails with [`ParamError::InteriorNul`] exactly when some name or
    /// encoded value holds a NUL character.
    #[verifier::spinoff_prover]
    pub fn encode(params: &QueryParams) -> (r: Result<Self, ParamError>)
        ensures
            r is Ok <==> forall|i: int| 0 <= i < params@.len() ==> fits_c_strings(#[trigger] params@[i]),
            r matches Ok(encoded) ==> encoded@ == params@.map_values(|p: (Seq<char>, ParamValue)| encoded_pair(p)),
            r matches Err(e) ==> e == ParamError::InteriorNul,
            r is Ok <==> forall|i: int|
                0 <= i < params@.len() ==> !has_nul((#[trigger] params@[i]).0) && !has_nul(
                    root_text(params@[i].1),
                ),
            r matches Ok(encoded) ==> encoded@.len() == params@.len() && forall|i: int|
                0 <= i < params@.len() ==> #[trigger] encoded@[i] == (params@[i].0, root_text(
                    params@[i].1,
                )),
    {
        let pairs = params.as_pairs();
        assert(pairs@.len() == params@.len());
        let mut names: Vec<String> = Vec::new();
        let mut values: Vec<String> = Vec::new();
        let mut i: usize = 0;
        while i < pairs.len()
            invariant
                i <= pairs@.len(),
                pairs@.len() == params@.len(),
                pairs_view(pairs@) == params@,
                names@.len() == i,
                values@.len() == i,
                forall|j: int| 0 <= j < i ==> fits_c_strings(#[trigger] params@[j]),
                forall|j: int|
                    0 <= j < i ==> (#[trigger] names@[j])@ == params@[j].0 && values@[j]@
                        == root_text(params@[j].1),
            decreases pairs@.len() - i,
        {
            let pair = &pairs[i];
            let name = &pair.0;
            let param = &pair.1;
            assert(pairs_view(pairs@)[i as int] == (pair.0@, pair.1@));
            let encoded = match param.encode() {
                Ok(text) => text,
                Err(e) => return Err(e),
            };
            assert(params@[i as int] == (name@, param@));
            if contains_nul(name.as_str()) || contains_nul(encoded.as_str()) {
                assert(has_nul(params@[i as int].0) || has_nul(root_text(params@[i as int].1)));
                return Err(ParamError::InteriorNul);
            }
            names.push(name.clone());
            values.push(encoded);
            i = i + 1;
        }
        let r = EncodedParams { names, values };
        assert(r@ =~= params@.map_values(|p: (Seq<char>, ParamValue)| encoded_pair(p)));
        Ok(r)
    }

    /// The number of name/value pairs.
    pub fn len(&self) -> (r: usize)
        ensures
            r == self@.len(),
    {
        self.names.len()
    }

    /// The parameter names, in order.
    pub fn names(&self) -> (r: &[String])
        ensures
            r@.len() == self@.len(),
            forall|i: int| 0 <= i < r@.len() ==> (#[trigger] r@[i])@ == self@[i].0,
    {
        self.names.as_slice()
    }

    /// The encoded values, in the order of their names.
    pub fn values(&self) -> (r: &[String])
        ensures
            r@.len() == self@.len(),
            forall|i: int| 0 <= i < r@.len() ==> (#[trigger] r@[i])@ == self@[i].1,
    {
        proof {
            use_type_invariant(self);
        }
        self.values.as_slice()
    }
}

} // verus!
