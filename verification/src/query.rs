//! URL query arguments as key/value pairs.

use vstd::prelude::*;
use vstd::string::StringExecFns;

verus! {

/// A list of query arguments, as they appear in a URL.
#[derive(Debug, Clone, PartialEq, Eq)]
pub struct Query {
    pub query: Vec<(String, String)>,
}

/// The concatenation of the values stored under `key`, in order.
pub open spec fn spec_get_query(q: Seq<(Seq<char>, Seq<char>)>, key: Seq<char>) -> Seq<char>
    decreases q.len(),
{
    if q.len() == 0 {
        Seq::empty()
    } else {
        (if q[0].0 == key {
            q[0].1
        } else {
            Seq::empty()
        }) + spec_get_query(q.drop_first(), key)
    }
}

impl Query {
    /// Wraps a list of query arguments.
    pub fn new(query: Vec<(String, String)>) -> (r: Query)
        ensures
            r.query == query,
    {
        Query { query }
    }

    /// The concatenation of the values stored under `key`, in order; empty
    /// when the key does not occur.
    #[verifier::loop_isolation(false)]
    pub fn get_query(&self, key: &str) -> (r: String)
        ensures
            r@ == spec_get_query(self.query.deep_view(), key@),
    {
        let n = self.query.len();
        let mut out = String::new();
        let mut i: usize = 0;
        proof {
            assert(self.query.deep_view().skip(0) =~= self.query.deep_view());
        }
        while i < n
            invariant
                0 <= i <= n,
                spec_get_query(self.query.deep_view(), key@) =~= out@ + spec_get_query(
                    self.query.deep_view().skip(i as int),
                    key@,
                ),
            decreases n - i,
        {
            let ghost rest = self.query.deep_view().skip(i as int);
            proof {
                assert(rest[0] == self.query.deep_view()[i as int]);
                assert(rest.drop_first() =~= self.query.deep_view().skip(i + 1));
            }
            let pair = &self.query[i];
            if crate::text::str_eq(pair.0.as_str(), key) {
                out.append(pair.1.as_str());
            }
            i += 1;
        }
        proof {
            assert(self.query.deep_view().skip(n as int) =~= Seq::<(Seq<char>, Seq<char>)>::empty());
            assert(out@ + Seq::<char>::empty() =~= out@);
        }
        out
    }

    /// An owned copy of the argument list.
    #[verifier::loop_isolation(false)]
    pub fn to_vec(&self) -> (r: Vec<(String, String)>)
        ensures
            r@ == self.query@,
    {
        let n = self.query.len();
        let mut out: Vec<(String, String)> = Vec::new();
        let mut i: usize = 0;
        while i < n
            invariant
                0 <= i <= n,
                out@ =~= self.query@.subrange(0, i as int),
            decreases n - i,
        {
            let pair = &self.query[i];
            out.push((pair.0.clone(), pair.1.clone()));
            proof {
                assert(out@ =~= self.query@.subrange(0, i + 1));
            }
            i += 1;
        }
        proof {
            assert(self.query@.subrange(0, n as int) =~= self.query@);
        }
        out
    }
}

/// What lower-casing a string yields.
pub uninterp spec fn lower_of(s: Seq<char>) -> Seq<char>;

/// Relies on str::to_lowercase: the result depends on the characters alone.
#[verifier::external_body]
fn lowercase(s: &str) -> (r: String)
    ensures
        r@ == lower_of(s@),
{
    s.to_lowercase()
}

/// One query argument before rendering: either a list of values or a single
/// value, each possibly absent.
#[derive(Debug, Clone, PartialEq, Eq)]
pub enum QueryType {
    List(Option<Vec<String>>),
    Value(Option<String>),
}

impl QueryType {
    /// The rendered values of this argument: a single value is lower-cased,
    /// a list is passed through, and an absent argument yields nothing.
    pub fn into_values(self) -> (r: Option<Vec<String>>)
        ensures
            self matches QueryType::Value(Some(v)) ==> r matches Some(out) && out.deep_view()
                =~= seq![lower_of(v@)],
            self matches QueryType::List(Some(vs)) ==> r == Some(vs),
            self matches QueryType::Value(None) ==> r is None,
            self matches QueryType::List(None) ==> r is None,
    {
        match self {
            QueryType::Value(Some(v)) => {
                let mut out: Vec<String> = Vec::new();
                out.push(lowercase(v.as_str()));
                Some(out)
            },
            QueryType::List(Some(vs)) => Some(vs),
            QueryType::Value(None) => None,
            QueryType::List(None) => None,
        }
    }
}

} // verus!
