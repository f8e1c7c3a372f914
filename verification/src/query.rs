//! The search query builder.
//!
//! A [`Search`] accumulates filter key/value pairs in insertion order. It is
//! read out once as a single query string of the form `key=value&key=value`,
//! with each key and value percent-encoded. Pairs are never removed, and
//! duplicate keys all appear in the output.

use vstd::prelude::*;
use crate::encoding::{ascii_chars, ascii_to_string, encode_component, push_encoded};

verus! {

/// The encoding of one filter pair: encoded key, `=`, encoded value.
pub open spec fn encode_pair(p: (Seq<char>, Seq<char>)) -> Seq<u8> {
    encode_component(p.0) + seq![0x3du8] + encode_component(p.1)
}

/// The encoding of a whole filter list: the encoded pairs in insertion
/// order, separated by `&`. An empty list encodes to the empty string.
pub open spec fn encode_query(ps: Seq<(Seq<char>, Seq<char>)>) -> Seq<u8>
    decreases ps.len(),
{
    if ps.len() == 0 {
        Seq::empty()
    } else if ps.len() == 1 {
        encode_pair(ps[0])
    } else {
        encode_query(ps.drop_last()) + seq![0x26u8] + encode_pair(ps.last())
    }
}

/// Adding a pair appends its encoding at the end of the query string and
/// leaves the encoding of the pairs added before it unchanged: the encoded
/// query preserves insertion order.
pub proof fn lemma_encode_query_push(ps: Seq<(Seq<char>, Seq<char>)>, p: (Seq<char>, Seq<char>))
    ensures
        ps.len() == 0 ==> encode_query(ps.push(p)) == encode_pair(p),
        ps.len() > 0 ==> encode_query(ps.push(p)) == encode_query(ps) + seq![0x26u8]
            + encode_pair(p),
{
    let pushed = ps.push(p);
    assert(pushed.drop_last() =~= ps);
    assert(pushed.last() == p);
    if ps.len() == 0 {
        assert(encode_query(pushed) == encode_pair(pushed[0]));
    }
}

/// An ordered list of filter key/value pairs for a search endpoint.
///
/// Its view is the sequence of (key, value) pairs in the order they were
/// added, each as a sequence of characters.
pub struct Search {
    pairs: Vec<(String, String)>,
}

impl View for Search {
    type V = Seq<(Seq<char>, Seq<char>)>;

    closed spec fn view(&self) -> Seq<(Seq<char>, Seq<char>)> {
        self.pairs@.map_values(|p: (String, String)| (p.0@, p.1@))
    }
}

impl Search {
    /// An empty filter list.
    pub fn new() -> (r: Search)
        ensures
            r@ == Seq::<(Seq<char>, Seq<char>)>::empty(),
    {
        let r = Search { pairs: Vec::new() };
        proof {
            assert(r@ =~= Seq::<(Seq<char>, Seq<char>)>::empty());
        }
        r
    }

    /// Appends one filter pair and returns the builder, so calls chain.
    pub fn filter(self, key: &str, value: &str) -> (r: Search)
        ensures
            r@ == self@.push((key@, value@)),
    {
        let mut pairs = self.pairs;
        pairs.push((key.to_owned(), value.to_owned()));
        let r = Search { pairs };
        proof {
            assert(r@ =~= self@.push((key@, value@)));
        }
        r
    }

    /// The pairs added so far, in insertion order.
    pub fn len(&self) -> (r: usize)
        ensures
            r == self@.len(),
    {
        self.pairs.len()
    }

    /// Reads the builder out as the encoded query string.
    pub fn query_string(&self) -> (r: String)
        ensures
            r@ == ascii_chars(encode_query(self@)),
    {
        let mut buf: Vec<u8> = Vec::new();
        let n = self.pairs.len();
        let mut i: usize = 0;
        while i < n
            invariant
                i <= n,
                n == self.pairs@.len(),
                self@.len() == n,
                buf@ == encode_query(self@.take(i as int)),
            decreases n - i,
        {
            if i > 0 {
                buf.push(0x26);
            }
            push_encoded(&mut buf, self.pairs[i].0.as_str());
            buf.push(0x3d);
            push_encoded(&mut buf, self.pairs[i].1.as_str());
            proof {
                let p = self@[i as int];
                assert(p == (self.pairs@[i as int].0@, self.pairs@[i as int].1@));
                lemma_encode_query_push(self@.take(i as int), p);
                assert(self@.take(i as int).push(p) =~= self@.take(i + 1int));
                assert(buf@ =~= encode_query(self@.take(i + 1int)));
            }
            i = i + 1;
        }
        proof {
            assert(self@.take(n as int) =~= self@);
            lemma_encode_query_ascii(self@);
        }
        ascii_to_string(buf)
    }
}

impl Default for Search {
    /// An empty filter list.
    fn default() -> (r: Search)
        ensures
            r@ == Seq::<(Seq<char>, Seq<char>)>::empty(),
    {
        Search::new()
    }
}

/// Every byte of an encoded query is ASCII.
pub proof fn lemma_encode_query_ascii(ps: Seq<(Seq<char>, Seq<char>)>)
    ensures
        forall|i: int| 0 <= i < encode_query(ps).len() ==> encode_query(ps)[i] < 0x80,
    decreases ps.len(),
{
    if ps.len() == 1 {
        lemma_encode_pair_ascii(ps[0]);
        assert(encode_query(ps) == encode_pair(ps[0]));
    } else if ps.len() > 1 {
        lemma_encode_query_ascii(ps.drop_last());
        lemma_encode_pair_ascii(ps.last());
        let front = encode_query(ps.drop_last());
        let sep = seq![0x26u8];
        let back = encode_pair(ps.last());
        assert(encode_query(ps) == front + sep + back);
        assert forall|i: int| 0 <= i < encode_query(ps).len() implies encode_query(ps)[i]
            < 0x80 by {
            if i < front.len() {
                assert(encode_query(ps)[i] == front[i]);
            } else if i == front.len() {
                assert(encode_query(ps)[i] == 0x26);
            } else {
                assert(encode_query(ps)[i] == back[i - front.len() - 1]);
            }
        }
    }
}

/// Every byte of one encoded pair is ASCII.
pub proof fn lemma_encode_pair_ascii(p: (Seq<char>, Seq<char>))
    ensures
        forall|i: int| 0 <= i < encode_pair(p).len() ==> encode_pair(p)[i] < 0x80,
{
    crate::encoding::lemma_percent_encode_ascii(vstd::utf8::encode_utf8(p.0));
    crate::encoding::lemma_percent_encode_ascii(vstd::utf8::encode_utf8(p.1));
}

} // verus!
