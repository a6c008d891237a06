//! Header collections: an ordered list of name/value pairs in which no name
//! occurs twice.

use vstd::prelude::*;

verus! {

/// The mathematical form of a header list: pairs of name and value.
pub type Pairs = Seq<(Seq<char>, Seq<char>)>;

/// The index of the first pair with the given name, or the length of the
/// list when no pair has it.
pub open spec fn position(pairs: Pairs, name: Seq<char>) -> int
    decreases pairs.len(),
{
    if pairs.len() == 0 {
        0
    } else if pairs[0].0 == name {
        0
    } else {
        1 + position(pairs.drop_first(), name)
    }
}

/// No name occurs twice.
pub open spec fn distinct_names(pairs: Pairs) -> bool {
    forall|i: int, j: int| 0 <= i < j < pairs.len() ==> pairs[i].0 != pairs[j].0
}

/// The value stored under a name, if any.
pub open spec fn lookup(pairs: Pairs, name: Seq<char>) -> Option<Seq<char>> {
    let at = position(pairs, name);
    if at < pairs.len() {
        Some(pairs[at].1)
    } else {
        None
    }
}

/// Stores a value under a name: an existing pair keeps its place and gets
/// the new value, a new name is added at the end.
pub open spec fn put(pairs: Pairs, name: Seq<char>, value: Seq<char>) -> Pairs {
    let at = position(pairs, name);
    if at < pairs.len() {
        pairs.update(at, (name, value))
    } else {
        pairs.push((name, value))
    }
}

/// Stores a value under a name unless the name is already present: the
/// first value of a name wins.
pub open spec fn put_if_absent(pairs: Pairs, name: Seq<char>, value: Seq<char>) -> Pairs {
    if position(pairs, name) < pairs.len() {
        pairs
    } else {
        pairs.push((name, value))
    }
}

/// `position` is the first index that carries the name.
pub proof fn lemma_position(pairs: Pairs, name: Seq<char>)
    ensures
        0 <= position(pairs, name) <= pairs.len(),
        position(pairs, name) < pairs.len() ==> pairs[position(pairs, name)].0 == name,
        forall|j: int| 0 <= j < position(pairs, name) ==> pairs[j].0 != name,
    decreases pairs.len(),
{
    if pairs.len() != 0 && pairs[0].0 != name {
        let rest = pairs.drop_first();
        lemma_position(rest, name);
        assert forall|j: int| 0 <= j < position(pairs, name) implies pairs[j].0 != name by {
            if j > 0 {
                assert(rest[j - 1] == pairs[j]);
            }
        }
    }
}

/// An index that carries the name, with no earlier one doing so, is the
/// position of the name; if no index carries it, the position is the length.
pub proof fn lemma_position_is(pairs: Pairs, name: Seq<char>, at: int)
    requires
        0 <= at <= pairs.len(),
        at < pairs.len() ==> pairs[at].0 == name,
        forall|j: int| 0 <= j < at ==> pairs[j].0 != name,
    ensures
        position(pairs, name) == at,
{
    lemma_position(pairs, name);
}

/// Storing keeps names distinct.
pub proof fn lemma_put_distinct(pairs: Pairs, name: Seq<char>, value: Seq<char>)
    requires
        distinct_names(pairs),
    ensures
        distinct_names(put(pairs, name, value)),
        distinct_names(put_if_absent(pairs, name, value)),
{
    lemma_position(pairs, name);
}

/// After storing a value under a name, that name yields the value and every
/// other name yields what it yielded before.
pub proof fn lemma_lookup_put(pairs: Pairs, name: Seq<char>, value: Seq<char>, other: Seq<char>)
    ensures
        lookup(put(pairs, name, value), name) == Some(value),
        other != name ==> lookup(put(pairs, name, value), other) == lookup(pairs, other),
{
    let after = put(pairs, name, value);
    lemma_position(pairs, name);
    lemma_position(pairs, other);
    lemma_position_is(after, name, position(pairs, name));
    if other != name {
        if position(pairs, other) < pairs.len() {
            lemma_position_is(after, other, position(pairs, other));
        } else {
            lemma_position_is(after, other, after.len() as int);
        }
    }
}

/// Storing under an absent name yields the value; storing under a present
/// name changes nothing, so the first value stays.
pub proof fn lemma_lookup_put_if_absent(
    pairs: Pairs,
    name: Seq<char>,
    value: Seq<char>,
    other: Seq<char>,
)
    ensures
        lookup(pairs, name) is Some ==> put_if_absent(pairs, name, value) == pairs,
        lookup(pairs, name) is None ==> lookup(put_if_absent(pairs, name, value), name) == Some(
            value,
        ),
        other != name ==> lookup(put_if_absent(pairs, name, value), other) == lookup(
            pairs,
            other,
        ),
{
    let after = put_if_absent(pairs, name, value);
    lemma_position(pairs, name);
    lemma_position(pairs, other);
    lemma_position_is(after, name, position(pairs, name));
    if other != name {
        if position(pairs, other) < pairs.len() {
            lemma_position_is(after, other, position(pairs, other));
        } else {
            lemma_position_is(after, other, after.len() as int);
        }
    }
}

/// An ordered collection of headers with pairwise distinct names.
#[derive(Debug)]
pub struct Headers {
    entries: Vec<(String, String)>,
}

impl View for Headers {
    type V = Pairs;

    closed spec fn view(&self) -> Pairs {
        self.entries.deep_view()
    }
}

impl Headers {
    #[verifier::type_invariant]
    spec fn names_are_distinct(&self) -> bool {
        distinct_names(self.entries.deep_view())
    }

    /// The empty collection.
    pub fn new() -> (headers: Headers)
        ensures
            headers@ == Seq::<(Seq<char>, Seq<char>)>::empty(),
    {
        let headers = Headers { entries: Vec::new() };
        assert(headers.entries.deep_view() =~= Seq::<(Seq<char>, Seq<char>)>::empty());
        headers
    }

    /// The number of headers.
    pub fn len(&self) -> (count: usize)
        ensures
            count == self@.len(),
            distinct_names(self@),
    {
        proof {
            use_type_invariant(self);
        }
        self.entries.len()
    }

    /// The name of the header at an index.
    pub fn name_at(&self, index: usize) -> (name: &str)
        requires
            index < self@.len(),
        ensures
            name@ == self@[index as int].0,
    {
        self.entries[index].0.as_str()
    }

    /// The value of the header at an index.
    pub fn value_at(&self, index: usize) -> (value: &str)
        requires
            index < self@.len(),
        ensures
            value@ == self@[index as int].1,
    {
        self.entries[index].1.as_str()
    }

    /// The first index whose header has the given name, or the number of
    /// headers when there is none.
    pub fn find(&self, name: &str) -> (at: usize)
        ensures
            at == position(self@, name@),
    {
        let wanted = name.to_owned();
        let mut at: usize = 0;
        while at < self.entries.len()
            invariant
                at <= self.entries.len(),
                wanted@ == name@,
                forall|j: int| 0 <= j < at ==> self.entries.deep_view()[j].0 != name@,
            decreases self.entries.len() - at,
        {
            if self.entries[at].0 == wanted {
                proof {
                    lemma_position_is(self@, name@, at as int);
                }
                return at;
            }
            at += 1;
        }
        proof {
            lemma_position_is(self@, name@, at as int);
        }
        at
    }

    /// The value stored under a name, if any.
    pub fn get(&self, name: &str) -> (value: Option<&str>)
        ensures
            value.deep_view() == lookup(self@, name@),
    {
        let at = self.find(name);
        if at < self.entries.len() {
            Some(self.entries[at].1.as_str())
        } else {
            None
        }
    }

    /// Stores a value under a name, replacing the value of a header that
    /// already has that name.
    pub fn insert(&mut self, name: String, value: String)
        ensures
            final(self)@ == put(old(self)@, name@, value@),
            distinct_names(final(self)@),
    {
        proof {
            use_type_invariant(&*self);
            lemma_put_distinct(self@, name@, value@);
        }
        let at = self.find(name.as_str());
        let ghost before = self.entries.deep_view();
        let mut entries: Vec<(String, String)> = Vec::new();
        core::mem::swap(&mut self.entries, &mut entries);
        if at < entries.len() {
            entries.set(at, (name, value));
            assert(entries.deep_view() =~= before.update(at as int, (name@, value@)));
        } else {
            entries.push((name, value));
            assert(entries.deep_view() =~= before.push((name@, value@)));
        }
        self.entries = entries;
    }

    /// Stores a value under a name unless a header already has that name.
    pub fn insert_if_absent(&mut self, name: String, value: String)
        ensures
            final(self)@ == put_if_absent(old(self)@, name@, value@),
            distinct_names(final(self)@),
    {
        proof {
            use_type_invariant(&*self);
            lemma_put_distinct(self@, name@, value@);
        }
        let at = self.find(name.as_str());
        let ghost before = self.entries.deep_view();
        let mut entries: Vec<(String, String)> = Vec::new();
        core::mem::swap(&mut self.entries, &mut entries);
        if at >= entries.len() {
            entries.push((name, value));
            assert(entries.deep_view() =~= before.push((name@, value@)));
        }
        self.entries = entries;
    }

    /// The headers as a list of owned pairs, in order.
    pub fn to_pairs(&self) -> (pairs: Vec<(String, String)>)
        ensures
            pairs.deep_view() == self@,
            distinct_names(self@),
    {
        proof {
            use_type_invariant(self);
        }
        let mut pairs: Vec<(String, String)> = Vec::new();
        let mut at: usize = 0;
        while at < self.entries.len()
            invariant
                at <= self.entries.len(),
                pairs.len() == at,
                forall|j: int|
                    0 <= j < at ==> pairs@[j].0@ == self.entries@[j].0@ && pairs@[j].1@
                        == self.entries@[j].1@,
            decreases self.entries.len() - at,
        {
            let name = self.entries[at].0.clone();
            let value = self.entries[at].1.clone();
            pairs.push((name, value));
            at += 1;
        }
        assert(pairs.deep_view() =~= self.entries.deep_view());
        pairs
    }
}

impl Clone for Headers {
    fn clone(&self) -> (copy: Headers)
        ensures
            copy@ == self@,
    {
        Headers { entries: self.to_pairs() }
    }
}

} // verus!
