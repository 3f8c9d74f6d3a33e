//! Form fields of a request body: a set of named text values in which each
//! name occurs at most once, and setting a name again replaces its value.

use vstd::prelude::*;
use vstd::string::StringExecFns;
use crate::text::{text_of, bool_of, num_of, bool_str, decimal_string};

verus! {

/// The (name, value) pairs seen as text.
pub open spec fn pairs_view(s: Seq<(String, String)>) -> Seq<(Seq<char>, Seq<char>)> {
    s.map_values(|e: (String, String)| (e.0@, e.1@))
}

/// No name occurs twice.
pub open spec fn distinct_names(s: Seq<(Seq<char>, Seq<char>)>) -> bool {
    forall|i: int, j: int| 0 <= i < s.len() && 0 <= j < s.len() && i != j ==> #[trigger] s[i].0 != #[trigger] s[j].0
}

/// The map from names to values that a list of pairs describes (a later
/// pair wins over an earlier one with the same name).
pub open spec fn pairs_to_map(s: Seq<(Seq<char>, Seq<char>)>) -> Map<Seq<char>, Seq<char>>
    decreases s.len(),
{
    if s.len() == 0 {
        Map::empty()
    } else {
        pairs_to_map(s.drop_last()).insert(s.last().0, s.last().1)
    }
}

/// A name is in the map exactly when some pair carries it.
pub proof fn lemma_pairs_to_map_dom(s: Seq<(Seq<char>, Seq<char>)>, k: Seq<char>)
    ensures
        pairs_to_map(s).dom().contains(k) <==> exists|i: int| 0 <= i < s.len() && #[trigger] s[i].0 == k,
    decreases s.len(),
{
    if s.len() > 0 {
        lemma_pairs_to_map_dom(s.drop_last(), k);
        if pairs_to_map(s.drop_last()).dom().contains(k) {
            let i = choose|i: int| 0 <= i < s.drop_last().len() && #[trigger] s.drop_last()[i].0 == k;
            assert(s[i].0 == k);
        }
        if exists|i: int| 0 <= i < s.len() && #[trigger] s[i].0 == k {
            let i = choose|i: int| 0 <= i < s.len() && #[trigger] s[i].0 == k;
            if i < s.len() - 1 {
                assert(s.drop_last()[i].0 == k);
            }
        }
    }
}

/// With distinct names, the value of the pair at `i` is the map's value of
/// its name.
pub proof fn lemma_pairs_to_map_index(s: Seq<(Seq<char>, Seq<char>)>, i: int)
    requires
        distinct_names(s),
        0 <= i < s.len(),
    ensures
        pairs_to_map(s).dom().contains(s[i].0),
        pairs_to_map(s)[s[i].0] == s[i].1,
    decreases s.len(),
{
    if i < s.len() - 1 {
        let t = s.drop_last();
        assert(distinct_names(t)) by {
            assert forall|a: int, b: int| 0 <= a < t.len() && 0 <= b < t.len() && a != b implies #[trigger] t[a].0 != #[trigger] t[b].0 by {
                assert(t[a] == s[a] && t[b] == s[b]);
            }
        }
        assert(t[i] == s[i]);
        lemma_pairs_to_map_index(t, i);
        assert(s.last().0 != s[i].0);
    }
}

/// Replacing the value of the pair at `i` (names distinct) is setting that
/// name in the map.
pub proof fn lemma_pairs_to_map_update(s: Seq<(Seq<char>, Seq<char>)>, i: int, v: Seq<char>)
    requires
        distinct_names(s),
        0 <= i < s.len(),
    ensures
        pairs_to_map(s.update(i, (s[i].0, v))) == pairs_to_map(s).insert(s[i].0, v),
    decreases s.len(),
{
    let u = s.update(i, (s[i].0, v));
    if i == s.len() - 1 {
        assert(u.drop_last() =~= s.drop_last());
        assert(pairs_to_map(u) =~= pairs_to_map(s).insert(s[i].0, v));
    } else {
        let t = s.drop_last();
        assert(distinct_names(t)) by {
            assert forall|a: int, b: int| 0 <= a < t.len() && 0 <= b < t.len() && a != b implies #[trigger] t[a].0 != #[trigger] t[b].0 by {
                assert(t[a] == s[a] && t[b] == s[b]);
            }
        }
        assert(t[i] == s[i]);
        lemma_pairs_to_map_update(t, i, v);
        assert(u.drop_last() =~= t.update(i, (t[i].0, v)));
        assert(u.last() == s.last());
        assert(s.last().0 != s[i].0);
        assert(pairs_to_map(u) =~= pairs_to_map(s).insert(s[i].0, v));
    }
}

/// `m` with `k` set to `v` when `v` is given, `m` itself otherwise.
pub open spec fn set_opt(m: Map<Seq<char>, Seq<char>>, k: Seq<char>, v: Option<Seq<char>>) -> Map<Seq<char>, Seq<char>> {
    match v {
        Some(x) => m.insert(k, x),
        None => m,
    }
}

/// The fields hold `v` under `name` when it is given, and nothing under
/// `name` otherwise.
pub open spec fn carries(m: Map<Seq<char>, Seq<char>>, name: Seq<char>, v: Option<Seq<char>>) -> bool {
    match v {
        Some(x) => m.contains_key(name) && m[name] == x,
        None => !m.contains_key(name),
    }
}

/// Named text values for a request body. Each name occurs at most once.
#[derive(Debug)]
pub struct Form {
    entries: Vec<(String, String)>,
}

impl View for Form {
    type V = Map<Seq<char>, Seq<char>>;

    closed spec fn view(&self) -> Map<Seq<char>, Seq<char>> {
        pairs_to_map(pairs_view(self.entries@))
    }
}

impl Form {
    #[verifier::type_invariant]
    closed spec fn names_distinct(self) -> bool {
        distinct_names(pairs_view(self.entries@))
    }

    /// A form without fields.
    pub fn new() -> (r: Form)
        ensures
            r@ == Map::<Seq<char>, Seq<char>>::empty(),
    {
        let r = Form { entries: Vec::new() };
        assert(pairs_view(r.entries@) =~= Seq::<(Seq<char>, Seq<char>)>::empty());
        r
    }

    /// Sets the field `name` to `value`, replacing an earlier value of it.
    pub fn insert(&mut self, name: &str, value: String)
        ensures
            final(self)@ == old(self)@.insert(name@, value@),
    {
        proof {
            use_type_invariant(&*self);
        }
        let key = String::from_str(name);
        let mut entries: Vec<(String, String)> = Vec::new();
        std::mem::swap(&mut entries, &mut self.entries);
        let ghost start = pairs_view(entries@);
        assert(pairs_view(old(self).entries@) == start);
        let n = entries.len();
        let mut i: usize = 0;
        while i < n
            invariant
                n == entries.len(),
                i <= n,
                pairs_view(entries@) == start,
                distinct_names(start),
                forall|j: int| 0 <= j < i ==> #[trigger] start[j].0 != key@,
            ensures
                i <= n,
                pairs_view(entries@) == start,
                forall|j: int| 0 <= j < i ==> #[trigger] start[j].0 != key@,
                i < n ==> start[i as int].0 == key@,
            decreases n - i,
        {
            if entries[i].0 == key {
                assert(start[i as int].0 == entries@[i as int].0@);
                break;
            }
            assert(start[i as int].0 == entries@[i as int].0@);
            i = i + 1;
        }
        if i < n {
            assert(key@ == name@);
            proof {
                assert(start[i as int].0 == entries@[i as int].0@);
                lemma_pairs_to_map_update(start, i as int, value@);
            }
            let ghost kv = key@;
            let ghost vv = value@;
            entries.set(i, (key, value));
            proof {
                assert(entries@[i as int].0@ == kv && entries@[i as int].1@ == vv);
                assert(pairs_view(entries@) =~= start.update(i as int, (start[i as int].0, value@)));
                let now = pairs_view(entries@);
                assert forall|a: int, b: int| 0 <= a < now.len() && 0 <= b < now.len() && a != b implies #[trigger] now[a].0 != #[trigger] now[b].0 by {
                    assert(now[a].0 == start[a].0 && now[b].0 == start[b].0);
                }
            }
        } else {
            entries.push((key, value));
            proof {
                let now = pairs_view(entries@);
                assert(now =~= start.push((name@, value@)));
                assert(now.drop_last() =~= start);
                assert forall|a: int, b: int| 0 <= a < now.len() && 0 <= b < now.len() && a != b implies #[trigger] now[a].0 != #[trigger] now[b].0 by {
                    if a < start.len() && b < start.len() {
                        assert(now[a] == start[a] && now[b] == start[b]);
                    } else if a < start.len() {
                        assert(now[a] == start[a]);
                    } else {
                        assert(now[b] == start[b]);
                    }
                }
            }
        }
        self.entries = entries;
    }

    /// Sets the field `name` to the text, when the text is given.
    pub fn insert_opt_text(&mut self, name: &str, v: &Option<String>)
        ensures
            final(self)@ == set_opt(old(self)@, name@, text_of(*v)),
    {
        match v {
            Some(x) => self.insert(name, x.clone()),
            None => {},
        }
    }

    /// Sets the field `name` to "true"/"false", when the flag is given.
    pub fn insert_opt_bool(&mut self, name: &str, v: Option<bool>)
        ensures
            final(self)@ == set_opt(old(self)@, name@, bool_of(v)),
    {
        match v {
            Some(x) => self.insert(name, String::from_str(bool_str(x))),
            None => {},
        }
    }

    /// Sets the field `name` to the decimal of the number, when it is given.
    pub fn insert_opt_num(&mut self, name: &str, v: Option<u64>)
        ensures
            final(self)@ == set_opt(old(self)@, name@, num_of(v)),
    {
        match v {
            Some(x) => self.insert(name, decimal_string(x)),
            None => {},
        }
    }

    /// The value of the field `name`, if the form has it.
    pub fn get(&self, name: &str) -> (r: Option<&String>)
        ensures
            r is Some <==> self@.dom().contains(name@),
            r matches Some(v) ==> v@ == self@[name@],
    {
        proof {
            use_type_invariant(self);
        }
        let key = String::from_str(name);
        let ghost s = pairs_view(self.entries@);
        let n = self.entries.len();
        let mut i: usize = 0;
        while i < n
            invariant
                n == self.entries.len(),
                i <= n,
                s == pairs_view(self.entries@),
                key@ == name@,
                distinct_names(s),
                forall|j: int| 0 <= j < i ==> #[trigger] s[j].0 != key@,
            decreases n - i,
        {
            if self.entries[i].0 == key {
                proof {
                    assert(s[i as int].0 == key@ && s[i as int].1 == self.entries@[i as int].1@);
                    lemma_pairs_to_map_index(s, i as int);
                }
                return Some(&self.entries[i].1);
            }
            i = i + 1;
        }
        proof {
            lemma_pairs_to_map_dom(s, key@);
            assert forall|j: int| 0 <= j < s.len() implies #[trigger] s[j].0 != key@ by {}
        }
        None
    }

    /// The number of fields.
    pub fn len(&self) -> (r: usize)
        ensures
            r == self@.dom().len(),
    {
        proof {
            use_type_invariant(self);
            lemma_distinct_pairs_len(pairs_view(self.entries@));
        }
        self.entries.len()
    }

    /// The fields as (name, value) pairs, in the order they were first set.
    pub fn entries(&self) -> (r: &Vec<(String, String)>)
        ensures
            pairs_to_map(pairs_view(r@)) == self@,
            distinct_names(pairs_view(r@)),
    {
        proof {
            use_type_invariant(self);
        }
        &self.entries
    }
}

/// With distinct names, the map has as many names as there are pairs.
pub proof fn lemma_distinct_pairs_len(s: Seq<(Seq<char>, Seq<char>)>)
    requires
        distinct_names(s),
    ensures
        pairs_to_map(s).dom().finite(),
        pairs_to_map(s).dom().len() == s.len(),
    decreases s.len(),
{
    if s.len() > 0 {
        let t = s.drop_last();
        assert(distinct_names(t)) by {
            assert forall|a: int, b: int| 0 <= a < t.len() && 0 <= b < t.len() && a != b implies #[trigger] t[a].0 != #[trigger] t[b].0 by {
                assert(t[a] == s[a] && t[b] == s[b]);
            }
        }
        lemma_distinct_pairs_len(t);
        lemma_pairs_to_map_dom(t, s.last().0);
        if pairs_to_map(t).dom().contains(s.last().0) {
            let i = choose|i: int| 0 <= i < t.len() && #[trigger] t[i].0 == s.last().0;
            assert(s[i].0 == s[s.len() - 1].0);
        }
    }
}

} // verus!
