//! Query strings: the `name=value` items that follow a path, joined with
//! '&' after a '?' when there is at least one.

use vstd::prelude::*;
use vstd::string::StringExecFns;
use crate::text::{decimal, bool_text, append_decimal, bool_str, text_of, bool_of, num_of, num32_of};

verus! {

/// The items joined with `sep` between neighbours.
pub open spec fn join(items: Seq<Seq<char>>, sep: Seq<char>) -> Seq<char>
    decreases items.len(),
{
    if items.len() == 0 {
        Seq::empty()
    } else if items.len() == 1 {
        items[0]
    } else {
        join(items.drop_last(), sep) + sep + items.last()
    }
}

/// `path`, followed by '?' and the items joined with '&' when there are
/// items; `path` alone otherwise.
pub open spec fn with_query(path: Seq<char>, items: Seq<Seq<char>>) -> Seq<char> {
    if items.len() == 0 {
        path
    } else {
        path + "?"@ + join(items, "&"@)
    }
}

/// The item `prefix` + `v` when `v` is given, nothing otherwise.
pub open spec fn opt_item(prefix: Seq<char>, v: Option<Seq<char>>) -> Seq<Seq<char>> {
    match v {
        Some(x) => seq![prefix + x],
        None => Seq::empty(),
    }
}

/// Whether `s` begins with `prefix`.
pub open spec fn begins_with(s: Seq<char>, prefix: Seq<char>) -> bool {
    prefix.len() <= s.len() && s.subrange(0, prefix.len() as int) == prefix
}

/// The items carry `v` under `name`: when `v` is given, the item `name`
/// followed by it is present and is the only item that begins with `name`;
/// otherwise no item begins with `name`.
pub open spec fn item_carries(items: Seq<Seq<char>>, name: Seq<char>, v: Option<Seq<char>>) -> bool {
    match v {
        Some(x) => items.contains(name + x) && forall|s: Seq<char>| #[trigger] items.contains(s) && begins_with(s, name) ==> s == name + x,
        None => forall|s: Seq<char>| #[trigger] items.contains(s) ==> !begins_with(s, name),
    }
}

/// 1 when `v` is given, 0 otherwise.
pub open spec fn given<T>(v: Option<T>) -> nat {
    if v is Some {
        1
    } else {
        0
    }
}

/// A query item name such as "max_id=": it ends in '=' and has no other
/// '='.
pub open spec fn is_item_name(n: Seq<char>) -> bool {
    &&& n.len() > 0
    &&& n.last() == '='
    &&& forall|k: int| 0 <= k < n.len() - 1 ==> n[k] != '='
}

/// Text that begins with one item name and then with another begins with
/// the same name twice: no item name is a proper prefix of another.
pub proof fn lemma_item_names_apart(a: Seq<char>, b: Seq<char>, x: Seq<char>)
    requires
        is_item_name(a),
        is_item_name(b),
        begins_with(a + x, b),
    ensures
        a == b,
{
    let s = a + x;
    if b.len() < a.len() {
        assert(s.subrange(0, b.len() as int)[b.len() - 1] == b[b.len() - 1]);
        assert(a[b.len() - 1] != '=');
    } else if b.len() > a.len() {
        assert(s.subrange(0, b.len() as int)[a.len() - 1] == b[a.len() - 1]);
        assert(b[a.len() - 1] != '=');
    } else {
        assert(a =~= s.subrange(0, a.len() as int));
    }
}

/// Named optional values, in order.
pub type Fields = Seq<(Seq<char>, Option<Seq<char>>)>;

/// The query items of named optional values: for each value that is given,
/// in order, its name followed by the value.
pub open spec fn given_items(fields: Fields) -> Seq<Seq<char>>
    decreases fields.len(),
{
    if fields.len() == 0 {
        Seq::empty()
    } else {
        given_items(fields.drop_last()) + opt_item(fields.last().0, fields.last().1)
    }
}

/// How many of the values are given.
pub open spec fn given_count(fields: Fields) -> nat
    decreases fields.len(),
{
    if fields.len() == 0 {
        0
    } else {
        given_count(fields.drop_last()) + given(fields.last().1)
    }
}

/// The names are item names, no two the same.
pub open spec fn names_apart(fields: Fields) -> bool {
    &&& forall|i: int| 0 <= i < fields.len() ==> is_item_name(#[trigger] fields[i].0)
    &&& forall|i: int, j: int| 0 <= i < fields.len() && 0 <= j < fields.len() && i != j ==> #[trigger] fields[i].0 != #[trigger] fields[j].0
}

/// Adding a field adds its item, if its value is given, after the others.
pub broadcast proof fn lemma_given_items_push(fields: Fields, f: (Seq<char>, Option<Seq<char>>))
    ensures
        #[trigger] given_items(fields.push(f)) == given_items(fields) + opt_item(f.0, f.1),
        given_count(fields.push(f)) == given_count(fields) + given(f.1),
{
    assert(fields.push(f).drop_last() =~= fields);
}

/// The items of two lists of named values put together are the items of
/// the first followed by those of the second.
pub proof fn lemma_given_items_append(a: Fields, b: Fields)
    ensures
        given_items(a + b) == given_items(a) + given_items(b),
        given_count(a + b) == given_count(a) + given_count(b),
    decreases b.len(),
{
    if b.len() == 0 {
        assert(a + b =~= a);
        assert(given_items(a) + given_items(b) =~= given_items(a));
    } else {
        let c = b.drop_last();
        lemma_given_items_append(a, c);
        assert(a + b =~= (a + c).push(b.last()));
        lemma_given_items_push(a + c, b.last());
        lemma_given_items_push(c, b.last());
        assert(c.push(b.last()) =~= b);
        assert(given_items(a) + given_items(b) =~= given_items(a) + given_items(c) + opt_item(b.last().0, b.last().1));
    }
}

/// With names apart, the items of named values carry each value under its
/// own name, there is one item per given value, and every item is made of
/// one of the names and its value.
pub proof fn lemma_given_items_carry(fields: Fields)
    requires
        names_apart(fields),
    ensures
        forall|j: int| 0 <= j < fields.len() ==> item_carries(given_items(fields), #[trigger] fields[j].0, fields[j].1),
        given_items(fields).len() == given_count(fields),
        forall|s: Seq<char>|
            #[trigger] given_items(fields).contains(s) ==> exists|j: int|
                0 <= j < fields.len() && (#[trigger] fields[j].1 matches Some(y) && s == fields[j].0 + y),
    decreases fields.len(),
{
    if fields.len() > 0 {
        let prev = fields.drop_last();
        let f = fields.last();
        let n = fields.len() - 1;
        assert(names_apart(prev)) by {
            assert forall|i: int| 0 <= i < prev.len() implies is_item_name(#[trigger] prev[i].0) by {
                assert(prev[i] == fields[i]);
            }
            assert forall|i: int, j: int| 0 <= i < prev.len() && 0 <= j < prev.len() && i != j implies #[trigger] prev[i].0 != #[trigger] prev[j].0 by {
                assert(prev[i] == fields[i] && prev[j] == fields[j]);
            }
        }
        lemma_given_items_carry(prev);
        let g = given_items(prev);
        let items = given_items(fields);
        assert(items == g + opt_item(f.0, f.1));
        assert(fields[n] == f);
        assert forall|s: Seq<char>| items.contains(s) <==> (g.contains(s) || (f.1 matches Some(y) && s == f.0 + y)) by {
            lemma_contains_concat(g, opt_item(f.0, f.1), s);
            lemma_contains_opt_item(f.0, f.1, s);
        }
        assert forall|s: Seq<char>| #[trigger] items.contains(s) implies exists|j: int|
            0 <= j < fields.len() && (#[trigger] fields[j].1 matches Some(y) && s == fields[j].0 + y) by {
            if g.contains(s) {
                let j = choose|j: int| 0 <= j < prev.len() && (#[trigger] prev[j].1 matches Some(y) && s == prev[j].0 + y);
                assert(fields[j] == prev[j]);
            } else {
                assert(fields[n].1 matches Some(y) && s == fields[n].0 + y);
            }
        }
        assert forall|j: int| 0 <= j < fields.len() implies item_carries(items, #[trigger] fields[j].0, fields[j].1) by {
            if j < n {
                assert(fields[j] == prev[j]);
                assert(item_carries(g, prev[j].0, prev[j].1));
                assert(fields[j].0 != f.0);
                assert forall|y: Seq<char>| !begins_with(f.0 + y, fields[j].0) by {
                    if begins_with(f.0 + y, fields[j].0) {
                        lemma_item_names_apart(f.0, fields[j].0, y);
                    }
                }
                match fields[j].1 {
                    Some(x) => {
                        assert(items.contains(fields[j].0 + x));
                    },
                    None => {},
                }
            } else {
                assert forall|s: Seq<char>| #[trigger] g.contains(s) implies !begins_with(s, f.0) by {
                    let i = choose|i: int| 0 <= i < prev.len() && (#[trigger] prev[i].1 matches Some(y) && s == prev[i].0 + y);
                    assert(prev[i] == fields[i]);
                    assert(fields[i].0 != fields[n].0);
                    if begins_with(s, f.0) {
                        let rest = s.subrange(prev[i].0.len() as int, s.len() as int);
                        assert(prev[i].0 + rest =~= s);
                        lemma_item_names_apart(prev[i].0, f.0, rest);
                    }
                }
                match f.1 {
                    Some(x) => {
                        assert(items.contains(f.0 + x));
                    },
                    None => {},
                }
            }
        }
    }
}

/// A value is in two sequences put together exactly when it is in one of
/// them.
pub broadcast proof fn lemma_contains_concat<A>(a: Seq<A>, b: Seq<A>, s: A)
    ensures
        #[trigger] (a + b).contains(s) <==> a.contains(s) || b.contains(s),
{
    if a.contains(s) {
        let i = choose|i: int| 0 <= i < a.len() && a[i] == s;
        assert((a + b)[i] == s);
    }
    if b.contains(s) {
        let i = choose|i: int| 0 <= i < b.len() && b[i] == s;
        assert((a + b)[a.len() + i] == s);
    }
    if (a + b).contains(s) {
        let i = choose|i: int| 0 <= i < (a + b).len() && (a + b)[i] == s;
        if i < a.len() {
            assert(a[i] == s);
        } else {
            assert(b[i - a.len()] == s);
        }
    }
}

/// An optional item holds only the item made of its name and value.
pub broadcast proof fn lemma_contains_opt_item(n: Seq<char>, v: Option<Seq<char>>, s: Seq<char>)
    ensures
        #[trigger] opt_item(n, v).contains(s) <==> (v matches Some(x) && s == n + x),
{
    if v is Some {
        assert(opt_item(n, v)[0] == n + v->0);
    }
}

/// The ordered items of a query string under construction.
pub struct Query {
    items: Vec<String>,
}

impl View for Query {
    type V = Seq<Seq<char>>;

    closed spec fn view(&self) -> Seq<Seq<char>> {
        self.items@.map_values(|s: String| s@)
    }
}

impl Query {
    /// A query without items.
    pub fn new() -> (r: Query)
        ensures
            r@ == Seq::<Seq<char>>::empty(),
    {
        let r = Query { items: Vec::new() };
        assert(r@ =~= Seq::<Seq<char>>::empty());
        r
    }

    fn push_item(&mut self, item: String)
        ensures
            final(self)@ == old(self)@.push(item@),
    {
        self.items.push(item);
        assert(self@ =~= old(self)@.push(item@));
    }

    /// Appends the item `prefix` + `value`.
    pub fn push_text(&mut self, prefix: &str, value: &str)
        ensures
            final(self)@ == old(self)@.push(prefix@ + value@),
    {
        let mut item = String::from_str(prefix);
        item.append(value);
        self.push_item(item);
    }

    /// Appends the item `prefix` + the decimal of `n`.
    pub fn push_num(&mut self, prefix: &str, n: u64)
        ensures
            final(self)@ == old(self)@.push(prefix@ + decimal(n as nat)),
    {
        let mut item = String::from_str(prefix);
        append_decimal(&mut item, n);
        self.push_item(item);
    }

    /// Appends the item `prefix` + "true" or "false".
    pub fn push_bool(&mut self, prefix: &str, b: bool)
        ensures
            final(self)@ == old(self)@.push(prefix@ + bool_text(b)),
    {
        let mut item = String::from_str(prefix);
        item.append(bool_str(b));
        self.push_item(item);
    }

    /// Appends `prefix` + the text, when the text is given.
    pub fn push_opt_text(&mut self, prefix: &str, v: &Option<String>)
        ensures
            final(self)@ == old(self)@ + opt_item(prefix@, text_of(*v)),
    {
        match v {
            Some(x) => self.push_text(prefix, x.as_str()),
            None => {},
        }
        assert(self@ =~= old(self)@ + opt_item(prefix@, text_of(*v)));
    }

    /// Appends `prefix` + the decimal of the number, when it is given.
    pub fn push_opt_num(&mut self, prefix: &str, v: Option<u64>)
        ensures
            final(self)@ == old(self)@ + opt_item(prefix@, num_of(v)),
    {
        match v {
            Some(x) => self.push_num(prefix, x),
            None => {},
        }
        assert(self@ =~= old(self)@ + opt_item(prefix@, num_of(v)));
    }

    /// Appends `prefix` + the decimal of the number, when it is given.
    pub fn push_opt_u32(&mut self, prefix: &str, v: Option<u32>)
        ensures
            final(self)@ == old(self)@ + opt_item(prefix@, num32_of(v)),
    {
        match v {
            Some(x) => self.push_num(prefix, x as u64),
            None => {},
        }
        assert(self@ =~= old(self)@ + opt_item(prefix@, num32_of(v)));
    }

    /// Appends `prefix` + "true"/"false", when the flag is given.
    pub fn push_opt_bool(&mut self, prefix: &str, v: Option<bool>)
        ensures
            final(self)@ == old(self)@ + opt_item(prefix@, bool_of(v)),
    {
        match v {
            Some(x) => self.push_bool(prefix, x),
            None => {},
        }
        assert(self@ =~= old(self)@ + opt_item(prefix@, bool_of(v)));
    }

    /// The number of items.
    pub fn len(&self) -> (r: usize)
        ensures
            r == self@.len(),
    {
        self.items.len()
    }

    /// The items joined with `sep`.
    pub fn joined(&self, sep: &str) -> (r: String)
        ensures
            r@ == join(self@, sep@),
    {
        let mut r = String::new();
        let n = self.items.len();
        let mut i: usize = 0;
        while i < n
            invariant
                n == self.items.len(),
                i <= n,
                r@ == join(self@.take(i as int), sep@),
            decreases n - i,
        {
            let ghost prev = self@.take(i as int);
            if i > 0 {
                r.append(sep);
            }
            r.append(self.items[i].as_str());
            proof {
                let next = self@.take(i + 1);
                assert(next.drop_last() =~= prev);
                assert(next.last() == self.items@[i as int]@);
                if i == 0 {
                    assert(prev =~= Seq::<Seq<char>>::empty());
                    assert(r@ =~= next[0]);
                }
            }
            i = i + 1;
        }
        assert(self@.take(n as int) =~= self@);
        r
    }

    /// `path` followed by this query, as [`with_query`] describes.
    pub fn render(&self, path: String) -> (r: String)
        ensures
            r@ == with_query(path@, self@),
    {
        if self.items.len() > 0 {
            let mut r = path;
            r.append("?");
            let q = self.joined("&");
            r.append(q.as_str());
            r
        } else {
            path
        }
    }
}

} // verus!
