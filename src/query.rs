use vstd::prelude::*;
use crate::keyed::{pairs_query, pairs_to_query, pairs_view};
use crate::text::push_char;

verus! {

/// `key=value`, the form of one query parameter.
pub open spec fn param_of(key: Seq<char>, value: Seq<char>) -> Seq<char> {
    key + seq!['='] + value
}

/// The parameters joined by `sep`, in order.
pub open spec fn joined(params: Seq<Seq<char>>, sep: char) -> Seq<char>
    decreases params.len(),
{
    if params.len() == 0 {
        Seq::empty()
    } else if params.len() == 1 {
        params[0]
    } else {
        joined(params.drop_last(), sep) + seq![sep] + params.last()
    }
}

/// The text of `s` cut at every `sep`: one more piece than `s` has separators.
pub open spec fn split_at_sep(s: Seq<char>, sep: char) -> Seq<Seq<char>>
    decreases s.len(),
{
    if s.len() == 0 {
        seq![Seq::empty()]
    } else {
        let prev = split_at_sep(s.drop_last(), sep);
        if s.last() == sep {
            prev.push(Seq::empty())
        } else {
            prev.update(prev.len() - 1, prev.last().push(s.last()))
        }
    }
}

/// The query string of a list of parameters: empty, or `?` and the parameters
/// joined by `&`.
pub open spec fn query_text(params: Seq<Seq<char>>) -> Seq<char> {
    if params.len() == 0 {
        Seq::empty()
    } else {
        seq!['?'] + joined(params, '&')
    }
}

/// The query parameters of a request, in insertion order.
#[derive(Clone, Debug, Default)]
pub struct Query(pub Vec<String>);

impl View for Query {
    type V = Seq<Seq<char>>;

    open spec fn view(&self) -> Seq<Seq<char>> {
        self.0@.map_values(|p: String| p@)
    }
}

/// Builds `key=value`.
pub fn make_param(key: &str, value: &str) -> (r: String)
    ensures
        r@ == param_of(key@, value@),
{
    let mut s = String::from_str(key);
    s.append("=");
    s.append(value);
    proof {
        reveal_strlit("=");
    }
    assert(s@ =~= param_of(key@, value@));
    s
}

impl Query {
    /// A query without parameters.
    pub fn new() -> (r: Query)
        ensures
            r@ == Seq::<Seq<char>>::empty(),
    {
        let r = Query(Vec::new());
        assert(r@ =~= Seq::<Seq<char>>::empty());
        r
    }

    /// A query of the one parameter `key=value`.
    pub fn from(key: &str, value: &str) -> (r: Query)
        ensures
            r@ == seq![param_of(key@, value@)],
    {
        let r = Query::new().add(key, value);
        assert(r@ =~= seq![param_of(key@, value@)]);
        r
    }

    /// Appends the parameter `key=value`.
    pub fn add(self, key: &str, value: &str) -> (r: Query)
        ensures
            r@ == self@.push(param_of(key@, value@)),
    {
        let mut params = self.0;
        params.push(make_param(key, value));
        let r = Query(params);
        assert(r@ =~= self@.push(param_of(key@, value@)));
        r
    }

    /// One `key=value` parameter for each pair, in order.
    pub fn from_pairs(pairs: &Vec<(String, String)>) -> (r: Query)
        ensures
            r@ == pairs_query(pairs_view(pairs@)),
    {
        pairs_to_query(pairs)
    }

    /// Appends the parameters of `query` after those of `self`.
    pub fn join(self, query: Query) -> (r: Query)
        ensures
            r@ == self@ + query@,
    {
        let mut params = self.0;
        let mut other = query.0;
        params.append(&mut other);
        let r = Query(params);
        assert(r@ =~= self@ + query@);
        r
    }

    /// A copy of the query.
    pub fn clone_query(&self) -> (r: Query)
        ensures
            r@ == self@,
    {
        let mut params: Vec<String> = Vec::new();
        let mut i: usize = 0;
        while i < self.0.len()
            invariant
                i <= self.0@.len(),
                params@.map_values(|p: String| p@) == self@.take(i as int),
            decreases self.0@.len() - i,
        {
            let item = self.0[i].clone();
            let ghost prev = params@;
            params.push(item);
            proof {
                assert(params@ == prev.push(item));
                assert(self@.take(i + 1) =~= self@.take(i as int).push(self@[i as int]));
                assert(params@.map_values(|p: String| p@) =~= prev.map_values(|p: String| p@).push(item@));
            }
            i = i + 1;
        }
        assert(self@.take(i as int) =~= self@);
        Query(params)
    }

    /// Number of parameters.
    pub fn len(&self) -> (r: usize)
        ensures
            r == self@.len(),
    {
        self.0.len()
    }

    /// The parameters joined by `&`, without the leading `?`.
    pub fn params_text(&self) -> (r: String)
        ensures
            r@ == joined(self@, '&'),
    {
        let mut out = String::new();
        let mut i: usize = 0;
        while i < self.0.len()
            invariant
                i <= self.0@.len(),
                out@ == joined(self@.take(i as int), '&'),
            decreases self.0@.len() - i,
        {
            proof {
                reveal_strlit("&");
                assert(self@.take(i + 1).drop_last() =~= self@.take(i as int));
            }
            if i > 0 {
                out.append("&");
            }
            out.append(self.0[i].as_str());
            i = i + 1;
        }
        assert(self@.take(i as int) =~= self@);
        out
    }

    /// The query as it stands in a URL: empty without parameters, else `?`
    /// followed by the parameters joined by `&`.
    pub fn to_query_string(&self) -> (r: String)
        ensures
            r@ == query_text(self@),
    {
        if self.0.len() == 0 {
            String::new()
        } else {
            let body = self.params_text();
            let mut out = String::from_str("?");
            out.append(body.as_str());
            proof {
                reveal_strlit("?");
            }
            out
        }
    }

    /// Reads `a=1&b=2`: the empty string gives no parameter, any other text
    /// one parameter for each piece between `&`.
    pub fn from_str(s: &str) -> (r: Query)
        ensures
            s@.len() == 0 ==> r@ == Seq::<Seq<char>>::empty(),
            s@.len() > 0 ==> r@ == split_at_sep(s@, '&'),
    {
        let n = s.unicode_len();
        if n == 0 {
            return Query::new();
        }
        let mut params: Vec<String> = Vec::new();
        params.push(String::new());
        let mut i: usize = 0;
        while i < n
            invariant
                n == s@.len(),
                i <= n,
                params@.len() >= 1,
                params@.map_values(|p: String| p@) == split_at_sep(s@.take(i as int), '&'),
            decreases n - i,
        {
            let c = s.get_char(i);
            let ghost before = params@.map_values(|p: String| p@);
            assert(s@.take(i + 1).drop_last() =~= s@.take(i as int));
            if c == '&' {
                params.push(String::new());
                assert(params@.map_values(|p: String| p@) =~= before.push(Seq::empty()));
            } else {
                let last = params.len() - 1;
                let mut piece = params[last].clone();
                piece = push_char(piece, c);
                params.set(last, piece);
                assert(params@.map_values(|p: String| p@) =~= before.update(
                    before.len() - 1,
                    before.last().push(c),
                ));
            }
            i = i + 1;
        }
        assert(s@.take(n as int) =~= s@);
        Query(params)
    }
}

} // verus!
