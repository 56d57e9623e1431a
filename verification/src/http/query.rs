//! The parameters of a call, in the order in which they were given.

use crate::http::address::{form_encoded, query_string, Pair};
use crate::text::{boolean, boolean_text, decimal, decimal_i64, decimal_u128, push_char};
use vstd::prelude::*;
use vstd::string::StringExecFns;

verus! {

/// An ordered list of query parameters. Nothing is sorted, merged or
/// dropped: what is signed and sent is what was appended, in that order.
#[derive(Debug, Clone)]
pub struct Params {
    pairs: Vec<(String, String)>,
}

/// The pair that an optional parameter contributes: one where a value was
/// given, none where it was not.
pub open spec fn optional(name: Seq<char>, value: Option<Seq<char>>) -> Seq<Pair> {
    match value {
        Some(v) => seq![(name, v)],
        None => Seq::empty(),
    }
}

/// The pair of an optional text.
pub open spec fn optional_text(name: Seq<char>, value: Option<&String>) -> Seq<Pair> {
    match value {
        Some(v) => seq![(name, v@)],
        None => Seq::empty(),
    }
}

/// The pair of an optional boolean, spelled out.
pub open spec fn optional_bool(name: Seq<char>, value: Option<bool>) -> Seq<Pair> {
    match value {
        Some(v) => seq![(name, boolean(v))],
        None => Seq::empty(),
    }
}

/// The pair of an optional number, in decimal.
pub open spec fn optional_u8(name: Seq<char>, value: Option<u8>) -> Seq<Pair> {
    match value {
        Some(v) => seq![(name, decimal(v as int))],
        None => Seq::empty(),
    }
}

/// The pair of an optional number, in decimal.
pub open spec fn optional_u16(name: Seq<char>, value: Option<u16>) -> Seq<Pair> {
    match value {
        Some(v) => seq![(name, decimal(v as int))],
        None => Seq::empty(),
    }
}

/// The pair of an optional number, in decimal.
pub open spec fn optional_u128(name: Seq<char>, value: Option<u128>) -> Seq<Pair> {
    match value {
        Some(v) => seq![(name, decimal(v as int))],
        None => Seq::empty(),
    }
}

/// The pair of an optional number, in decimal.
pub open spec fn optional_i64(name: Seq<char>, value: Option<i64>) -> Seq<Pair> {
    match value {
        Some(v) => seq![(name, decimal(v as int))],
        None => Seq::empty(),
    }
}

impl View for Params {
    type V = Seq<Pair>;

    closed spec fn view(&self) -> Seq<Pair> {
        Seq::new(self.pairs@.len(), |i: int| (self.pairs@[i].0@, self.pairs@[i].1@))
    }
}

impl Params {
    /// No parameters.
    pub fn new() -> (params: Self)
        ensures
            params@ == Seq::<Pair>::empty(),
    {
        let params = Params { pairs: Vec::new() };
        assert(params@ =~= Seq::<Pair>::empty());
        params
    }

    /// Appends a parameter after those that are there.
    pub fn append_pair(&mut self, name: &str, value: &str)
        ensures
            final(self)@ == old(self)@.push((name@, value@)),
    {
        self.pairs.push((name.to_string(), value.to_string()));
        assert(final(self)@ =~= old(self)@.push((name@, value@)));
    }

    /// Appends a parameter where a value is given, and nothing where none
    /// is: an absent parameter leaves no trace, not even its name.
    pub fn append_optional(&mut self, name: &str, value: Option<&str>)
        ensures
            final(self)@ == old(self)@ + optional(
                name@,
                match value {
                    Some(v) => Some(v@),
                    None => None,
                },
            ),
    {
        match value {
            Some(v) => {
                self.append_pair(name, v);
                assert(final(self)@ =~= old(self)@ + seq![(name@, v@)]);
            },
            None => {
                assert(final(self)@ =~= old(self)@ + Seq::<Pair>::empty());
            },
        }
    }

    /// Appends a number, in decimal.
    pub fn append_u128(&mut self, name: &str, value: u128)
        ensures
            final(self)@ == old(self)@.push((name@, decimal(value as int))),
    {
        let text = decimal_u128(value);
        self.append_pair(name, text.as_str());
    }

    /// Appends a number, in decimal.
    pub fn append_i64(&mut self, name: &str, value: i64)
        ensures
            final(self)@ == old(self)@.push((name@, decimal(value as int))),
    {
        let text = decimal_i64(value);
        self.append_pair(name, text.as_str());
    }

    /// Appends a text where one is given.
    pub fn append_optional_text(&mut self, name: &str, value: Option<&String>)
        ensures
            final(self)@ == old(self)@ + optional_text(name@, value),
    {
        match value {
            Some(v) => {
                self.append_pair(name, v.as_str());
                assert(final(self)@ =~= old(self)@ + seq![(name@, v@)]);
            },
            None => {
                assert(final(self)@ =~= old(self)@ + Seq::<Pair>::empty());
            },
        }
    }

    /// Appends a boolean, spelled out, where one is given.
    pub fn append_optional_bool(&mut self, name: &str, value: Option<bool>)
        ensures
            final(self)@ == old(self)@ + optional_bool(name@, value),
    {
        match value {
            Some(v) => {
                self.append_pair(name, boolean_text(v));
                assert(final(self)@ =~= old(self)@ + seq![(name@, boolean(v))]);
            },
            None => {
                assert(final(self)@ =~= old(self)@ + Seq::<Pair>::empty());
            },
        }
    }

    /// Appends a number, in decimal, where one is given.
    pub fn append_optional_u8(&mut self, name: &str, value: Option<u8>)
        ensures
            final(self)@ == old(self)@ + optional_u8(name@, value),
    {
        match value {
            Some(v) => {
                self.append_u128(name, v as u128);
                assert(final(self)@ =~= old(self)@ + seq![(name@, decimal(v as int))]);
            },
            None => {
                assert(final(self)@ =~= old(self)@ + Seq::<Pair>::empty());
            },
        }
    }

    /// Appends a number, in decimal, where one is given.
    pub fn append_optional_u16(&mut self, name: &str, value: Option<u16>)
        ensures
            final(self)@ == old(self)@ + optional_u16(name@, value),
    {
        match value {
            Some(v) => {
                self.append_u128(name, v as u128);
                assert(final(self)@ =~= old(self)@ + seq![(name@, decimal(v as int))]);
            },
            None => {
                assert(final(self)@ =~= old(self)@ + Seq::<Pair>::empty());
            },
        }
    }

    /// Appends a number, in decimal, where one is given.
    pub fn append_optional_u128(&mut self, name: &str, value: Option<u128>)
        ensures
            final(self)@ == old(self)@ + optional_u128(name@, value),
    {
        match value {
            Some(v) => {
                self.append_u128(name, v);
                assert(final(self)@ =~= old(self)@ + seq![(name@, decimal(v as int))]);
            },
            None => {
                assert(final(self)@ =~= old(self)@ + Seq::<Pair>::empty());
            },
        }
    }

    /// Appends a number, in decimal, where one is given.
    pub fn append_optional_i64(&mut self, name: &str, value: Option<i64>)
        ensures
            final(self)@ == old(self)@ + optional_i64(name@, value),
    {
        match value {
            Some(v) => {
                self.append_i64(name, v);
                assert(final(self)@ =~= old(self)@ + seq![(name@, decimal(v as int))]);
            },
            None => {
                assert(final(self)@ =~= old(self)@ + Seq::<Pair>::empty());
            },
        }
    }

    /// The query that holds these parameters and no others, in their order:
    /// the text that is signed and sent for them after a base URL without a
    /// query. Requests do not go through it: their query is the one that the
    /// `url` crate writes into the URL.
    pub fn to_query_string(&self) -> (query: String)
        ensures
            query@ == query_string(self@),
    {
        let mut query = String::new();
        let mut i: usize = 0;
        assert(self@.take(0) =~= Seq::<Pair>::empty());
        while i < self.len()
            invariant
                i <= self@.len(),
                query@ == query_string(self@.take(i as int)),
            decreases self@.len() - i,
        {
            let ghost before = query@;
            let name = form_encoded(self.name(i));
            let value = form_encoded(self.value(i));
            if i > 0 {
                proof {
                    crate::http::laws::lemma_query_string_len(self@.take(i as int));
                }
                push_char(&mut query, '&');
            }
            query.append(name.as_str());
            push_char(&mut query, '=');
            query.append(value.as_str());
            proof {
                let next = self@.take(i + 1);
                assert(next.drop_last() =~= self@.take(i as int));
                assert(next.last() == self@[i as int]);
                assert(query@ =~= query_string(next));
            }
            i = i + 1;
        }
        assert(self@.take(i as int) =~= self@);
        query
    }

    /// The number of parameters.
    pub fn len(&self) -> (n: usize)
        ensures
            n == self@.len(),
    {
        self.pairs.len()
    }

    /// The name of the parameter at `index`.
    pub fn name(&self, index: usize) -> (name: &str)
        requires
            index < self@.len(),
        ensures
            name@ == self@[index as int].0,
    {
        self.pairs[index].0.as_str()
    }

    /// The value of the parameter at `index`.
    pub fn value(&self, index: usize) -> (value: &str)
        requires
            index < self@.len(),
        ensures
            value@ == self@[index as int].1,
    {
        self.pairs[index].1.as_str()
    }
}

} // verus!
