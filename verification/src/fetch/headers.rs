//! The headers of a request.

use crate::text::{is_nul_free, nul_free};
use std::collections::hash_map::RandomState;
use std::collections::HashMap;
use std::fmt::{Debug, Formatter};
use vstd::prelude::*;
use vstd::std_specs::hash::*;
use vstd::string::*;

verus! {

/// `std::fmt::Formatter`, handed on without looking inside.
#[verifier::external_type_specification]
#[verifier::external_body]
pub struct ExFormatter<'a>(std::fmt::Formatter<'a>);

/// `std::fmt::Error`, handed on without looking inside.
#[verifier::external_type_specification]
#[verifier::external_body]
pub struct ExFmtError(std::fmt::Error);

/// Writes `map` with `Debug::fmt` of `std::collections::HashMap`. What the formatter holds after it,
/// and whether it fails to write, is left unsaid.
#[verifier::external_body]
fn write_map(map: &HashMap<String, String>, f: &mut Formatter<'_>) -> std::fmt::Result {
    map.fmt(f)
}

/// Names and values of headers. No name occurs twice.
pub struct HeaderMap {
    entries: Vec<(String, String)>,
}

/// `order` lists the pairs of `headers`, each once.
pub open spec fn lists(
    order: Seq<(Seq<char>, Seq<char>)>,
    headers: Map<Seq<char>, Seq<char>>,
) -> bool {
    &&& forall|i: int, j: int|
        0 <= i < j < order.len() ==> (#[trigger] order[i]).0 != (#[trigger] order[j]).0
    &&& forall|i: int|
        0 <= i < order.len() ==> headers.contains_pair((#[trigger] order[i]).0, order[i].1)
    &&& forall|name: Seq<char>| #[trigger]
        headers.contains_key(name) ==> exists|i: int|
            0 <= i < order.len() && (#[trigger] order[i]).0 == name
}

/// A header as it is sent.
pub open spec fn line(name: Seq<char>, value: Seq<char>) -> Seq<char> {
    name + ": "@ + value
}

/// The headers of `order` as they are sent.
pub open spec fn header_lines(order: Seq<(Seq<char>, Seq<char>)>) -> Seq<Seq<char>> {
    order.map_values(|pair: (Seq<char>, Seq<char>)| line(pair.0, pair.1))
}

/// No name and no value has a NUL in it.
pub open spec fn are_nul_free(headers: Map<Seq<char>, Seq<char>>) -> bool {
    forall|name: Seq<char>| #[trigger]
        headers.contains_key(name) ==> nul_free(name) && nul_free(headers[name])
}

/// `map` holds the pairs of `headers` and no others.
spec fn holds(map: Map<String, String>, headers: Map<Seq<char>, Seq<char>>) -> bool {
    &&& forall|name: String| #[trigger]
        map.contains_key(name) ==> headers.contains_pair(name@, map[name]@)
    &&& forall|name: Seq<char>| #[trigger]
        headers.contains_key(name) ==> exists|key: String| #[trigger]
            map.contains_key(key) && key@ == name
}

/// The views of a sequence of strings.
pub open spec fn texts(strings: Seq<String>) -> Seq<Seq<char>> {
    strings.map_values(|string: String| string@)
}

spec fn distinct(pairs: Seq<(Seq<char>, Seq<char>)>) -> bool {
    forall|i: int, j: int|
        0 <= i < j < pairs.len() ==> (#[trigger] pairs[i]).0 != (#[trigger] pairs[j]).0
}

spec fn is_named(pairs: Seq<(Seq<char>, Seq<char>)>, name: Seq<char>) -> bool {
    exists|i: int| 0 <= i < pairs.len() && (#[trigger] pairs[i]).0 == name
}

spec fn position(pairs: Seq<(Seq<char>, Seq<char>)>, name: Seq<char>) -> int {
    choose|i: int| 0 <= i < pairs.len() && (#[trigger] pairs[i]).0 == name
}

spec fn map_of(pairs: Seq<(Seq<char>, Seq<char>)>) -> Map<Seq<char>, Seq<char>> {
    Map::new(|name: Seq<char>| is_named(pairs, name), |name: Seq<char>| pairs[position(pairs, name)].1)
}

proof fn lemma_map_of(pairs: Seq<(Seq<char>, Seq<char>)>)
    requires
        distinct(pairs),
    ensures
        lists(pairs, map_of(pairs)),
{
    assert forall|i: int| 0 <= i < pairs.len() implies map_of(pairs).contains_pair(
        (#[trigger] pairs[i]).0,
        pairs[i].1,
    ) by {
        let p = position(pairs, pairs[i].0);
        assert(is_named(pairs, pairs[i].0));
        assert(pairs[p].0 == pairs[i].0);
        assert(p == i);
    }
}

proof fn lemma_same_map(
    order: Seq<(Seq<char>, Seq<char>)>,
    left: Map<Seq<char>, Seq<char>>,
    right: Map<Seq<char>, Seq<char>>,
)
    requires
        lists(order, left),
        lists(order, right),
    ensures
        left == right,
{
    assert forall|name: Seq<char>| left.contains_key(name) implies right.contains_key(name)
        && left[name] == right[name] by {
        let i = choose|i: int| 0 <= i < order.len() && (#[trigger] order[i]).0 == name;
        assert(right.contains_pair(order[i].0, order[i].1));
        assert(left.contains_pair(order[i].0, order[i].1));
    }
    assert forall|name: Seq<char>| right.contains_key(name) implies left.contains_key(name) by {
        let i = choose|i: int| 0 <= i < order.len() && (#[trigger] order[i]).0 == name;
        assert(left.contains_pair(order[i].0, order[i].1));
    }
    assert(left =~= right);
}

/// Replacing the value of one pair, or adding a pair with a new name, inserts into the map.
proof fn lemma_insert(
    pairs: Seq<(Seq<char>, Seq<char>)>,
    i: int,
    name: Seq<char>,
    value: Seq<char>,
)
    requires
        distinct(pairs),
        0 <= i <= pairs.len(),
        i < pairs.len() ==> pairs[i].0 == name,
        i == pairs.len() ==> !is_named(pairs, name),
    ensures
        ({
            let after = if i < pairs.len() {
                pairs.update(i, (name, value))
            } else {
                pairs.push((name, value))
            };
            distinct(after) && map_of(after) == map_of(pairs).insert(name, value)
        }),
{
    let after = if i < pairs.len() {
        pairs.update(i, (name, value))
    } else {
        pairs.push((name, value))
    };
    let map = map_of(pairs).insert(name, value);
    lemma_map_of(pairs);
    assert(distinct(after));
    lemma_map_of(after);
    assert forall|j: int| 0 <= j < after.len() implies map.contains_pair(
        (#[trigger] after[j]).0,
        after[j].1,
    ) by {
        if j != i {
            assert(after[j] == pairs[j]);
            if pairs[j].0 == name {
                assert(is_named(pairs, name));
            }
        }
    }
    assert forall|key: Seq<char>| #[trigger] map.contains_key(key) implies exists|j: int|
        0 <= j < after.len() && (#[trigger] after[j]).0 == key by {
        if key == name {
            assert(after[i].0 == key);
        } else {
            let j = choose|j: int| 0 <= j < pairs.len() && (#[trigger] pairs[j]).0 == key;
            assert(after[j].0 == key);
        }
    }
    lemma_same_map(after, map_of(after), map);
}

/// A pair with a new name can be added on both sides.
proof fn lemma_holds_more(
    map: Map<String, String>,
    headers: Map<Seq<char>, Seq<char>>,
    name: String,
    value: String,
)
    requires
        holds(map, headers),
        !headers.contains_key(name@),
    ensures
        holds(map.insert(name, value), headers.insert(name@, value@)),
{
    let after = map.insert(name, value);
    assert forall|other: Seq<char>| #[trigger]
        headers.insert(name@, value@).contains_key(other) implies exists|key: String| #[trigger]
        after.contains_key(key) && key@ == other by {
        if other == name@ {
            assert(after.contains_key(name));
        } else {
            assert(headers.contains_key(other));
            let key = choose|key: String| #[trigger] map.contains_key(key) && key@ == other;
            assert(after.contains_key(key));
        }
    }
    assert forall|key: String| #[trigger] after.contains_key(key) implies headers.insert(
        name@,
        value@,
    ).contains_pair(key@, after[key]@) by {
        if key != name {
            assert(map.contains_key(key));
        }
    }
}

impl HeaderMap {
    spec fn pairs(self) -> Seq<(Seq<char>, Seq<char>)> {
        self.entries@.map_values(|entry: (String, String)| (entry.0@, entry.1@))
    }

    #[verifier::type_invariant]
    spec fn names_are_distinct(self) -> bool {
        distinct(self.pairs())
    }
}

impl View for HeaderMap {
    type V = Map<Seq<char>, Seq<char>>;

    closed spec fn view(&self) -> Map<Seq<char>, Seq<char>> {
        map_of(self.pairs())
    }
}

/// Headers are shown as a map, each name with its value.
impl Debug for HeaderMap {
    fn fmt(&self, f: &mut Formatter<'_>) -> std::fmt::Result {
        write_map(&self.to_hash_map(), f)
    }
}

impl HeaderMap {
    /// No headers.
    pub fn new() -> (r: Self)
        ensures
            r@ == Map::<Seq<char>, Seq<char>>::empty(),
    {
        let r = HeaderMap { entries: Vec::new() };
        assert(r@ =~= Map::<Seq<char>, Seq<char>>::empty());
        r
    }

    /// The headers with `name` set to `value`, in place of the value that it had.
    pub fn with(self, name: String, value: String) -> (r: Self)
        ensures
            r@ == self@.insert(name@, value@),
    {
        proof {
            use_type_invariant(&self);
        }
        let ghost pairs = self.pairs();
        let mut entries = self.entries;
        let mut i: usize = 0;
        while i < entries.len() && entries[i].0 != name
            invariant
                i <= entries@.len(),
                entries@.len() == pairs.len(),
                forall|j: int| 0 <= j < pairs.len() ==> (#[trigger] pairs[j]).0 == entries@[j].0@,
                forall|j: int| 0 <= j < i ==> (#[trigger] pairs[j]).0 != name@,
            decreases entries@.len() - i,
        {
            i = i + 1;
        }
        proof {
            lemma_insert(pairs, i as int, name@, value@);
        }
        if i < entries.len() {
            entries[i] = (name, value);
        } else {
            entries.push((name, value));
        }
        let ghost after = if i < pairs.len() {
            pairs.update(i as int, (name@, value@))
        } else {
            pairs.push((name@, value@))
        };
        assert(entries@.map_values(|entry: (String, String)| (entry.0@, entry.1@)) =~= after);
        HeaderMap { entries }
    }

    /// Whether C strings can hold all names and values.
    pub fn is_nul_free(&self) -> (r: bool)
        ensures
            r == are_nul_free(self@),
    {
        proof {
            use_type_invariant(self);
            lemma_map_of(self.pairs());
        }
        let mut i: usize = 0;
        while i < self.entries.len()
            invariant
                i <= self.entries@.len(),
                lists(self.pairs(), self@),
                forall|j: int|
                    0 <= j < i ==> nul_free((#[trigger] self.pairs()[j]).0) && nul_free(
                        self.pairs()[j].1,
                    ),
            decreases self.entries@.len() - i,
        {
            let ghost pair = self.pairs()[i as int];
            assert(self@.contains_pair(pair.0, pair.1));
            if !is_nul_free(self.entries[i].0.as_str()) || !is_nul_free(self.entries[i].1.as_str()) {
                return false;
            }
            i = i + 1;
        }
        assert forall|name: Seq<char>| #[trigger] self@.contains_key(name) implies nul_free(name)
            && nul_free(self@[name]) by {
            let j = choose|j: int|
                0 <= j < self.pairs().len() && (#[trigger] self.pairs()[j]).0 == name;
            assert(self@.contains_pair(self.pairs()[j].0, self.pairs()[j].1));
        }
        true
    }

    /// The headers as a `HashMap`. What it holds is known as far as hashing is known to agree with
    /// equality on `String`.
    fn to_hash_map(&self) -> (r: HashMap<String, String>)
        ensures
            obeys_key_model::<String>() ==> holds(r@, self@),
    {
        broadcast use axiom_random_state_builds_valid_hashers;

        proof {
            use_type_invariant(self);
        }
        let ghost pairs = self.pairs();
        let mut map: HashMap<String, String> = HashMap::new();
        let mut i: usize = 0;
        while i < self.entries.len()
            invariant
                i <= self.entries@.len(),
                pairs == self.pairs(),
                distinct(pairs),
                builds_valid_hashers::<RandomState>(),
                obeys_key_model::<String>() ==> holds(map@, map_of(pairs.take(i as int))),
            decreases self.entries@.len() - i,
        {
            let name = self.entries[i].0.clone();
            let value = self.entries[i].1.clone();
            proof {
                let front = pairs.take(i as int);
                assert(!is_named(front, name@)) by {
                    assert(pairs[i as int].0 == name@);
                }
                lemma_insert(front, i as int, name@, value@);
                assert(pairs.take(i + 1) =~= front.push((name@, value@)));
                if obeys_key_model::<String>() {
                    lemma_holds_more(map@, map_of(front), name, value);
                }
            }
            map.insert(name, value);
            i = i + 1;
        }
        assert(pairs.take(i as int) =~= pairs);
        map
    }

    /// Each header as a line, in some order.
    pub fn lines(&self) -> (r: Vec<String>)
        ensures
            exists|order: Seq<(Seq<char>, Seq<char>)>| #[trigger]
                lists(order, self@) && texts(r@) == header_lines(order),
    {
        proof {
            use_type_invariant(self);
            lemma_map_of(self.pairs());
        }
        let mut lines: Vec<String> = Vec::new();
        let mut i: usize = 0;
        while i < self.entries.len()
            invariant
                i <= self.entries@.len(),
                lines@.len() == i,
                forall|j: int|
                    0 <= j < i ==> (#[trigger] lines@[j])@ == line(
                        self.entries@[j].0@,
                        self.entries@[j].1@,
                    ),
            decreases self.entries@.len() - i,
        {
            let mut text = self.entries[i].0.clone();
            text.append(": ");
            text.append(self.entries[i].1.as_str());
            lines.push(text);
            i = i + 1;
        }
        assert(lists(self.pairs(), self@));
        assert(texts(lines@) =~= header_lines(self.pairs()));
        lines
    }
}

/// Headers whose names and values have no NUL in them are sent as lines without NULs.
pub proof fn lemma_lines_nul_free(
    order: Seq<(Seq<char>, Seq<char>)>,
    headers: Map<Seq<char>, Seq<char>>,
)
    requires
        lists(order, headers),
        are_nul_free(headers),
    ensures
        forall|i: int|
            0 <= i < header_lines(order).len() ==> nul_free(#[trigger] header_lines(order)[i]),
{
    reveal_strlit(": ");
    assert forall|i: int| 0 <= i < header_lines(order).len() implies nul_free(
        #[trigger] header_lines(order)[i],
    ) by {
        let (name, value) = order[i];
        let text = line(name, value);
        assert(headers.contains_pair(order[i].0, order[i].1));
        assert forall|c: char| text.contains(c) implies c != '\0' by {
            let k = choose|k: int| 0 <= k < text.len() && text[k] == c;
            if k < name.len() {
                assert(name[k] == c);
            } else if k >= name.len() + 2 {
                assert(value[k - name.len() - 2] == c);
            }
        }
    }
}

} // verus!
