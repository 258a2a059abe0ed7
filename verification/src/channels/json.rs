//! A JSON document model used for every payload the channels build or read.
//!
//! Numbers are kept as their decimal text, so that no floating point value
//! is ever needed inside the library.

use vstd::prelude::*;

verus! {

/// A JSON value. Objects keep their entries in insertion order.
#[derive(Debug)]
pub enum Json {
    Null,
    Bool(bool),
    /// A number, held as its JSON text (for example `-12`).
    Number(String),
    Str(String),
    Array(Vec<Json>),
    Object(Vec<(String, Json)>),
}

/// The mathematical model of a [`Json`] value.
#[verifier::ext_equal]
pub enum JsonView {
    Null,
    Bool(bool),
    Number(Seq<char>),
    Str(Seq<char>),
    Array(Seq<JsonView>),
    Object(Seq<(Seq<char>, JsonView)>),
}

impl Json {
    /// The model of this value, element by element.
    pub open spec fn model(self) -> JsonView
        decreases self,
    {
        match self {
            Json::Null => JsonView::Null,
            Json::Bool(b) => JsonView::Bool(b),
            Json::Number(n) => JsonView::Number(n@),
            Json::Str(s) => JsonView::Str(s@),
            Json::Array(v) => JsonView::Array(
                Seq::new(
                    v.len() as nat,
                    |i: int|
                        if 0 <= i < v.len() {
                            v[i].model()
                        } else {
                            JsonView::Null
                        },
                ),
            ),
            Json::Object(v) => JsonView::Object(
                Seq::new(
                    v.len() as nat,
                    |i: int|
                        if 0 <= i < v.len() {
                            (v[i].0@, v[i].1.model())
                        } else {
                            (Seq::empty(), JsonView::Null)
                        },
                ),
            ),
        }
    }
}

impl View for Json {
    type V = JsonView;

    open spec fn view(&self) -> JsonView {
        self.model()
    }
}

/// The model of a sequence of object entries.
pub open spec fn entries_view(es: Seq<(String, Json)>) -> Seq<(Seq<char>, JsonView)> {
    Seq::new(es.len(), |i: int| (es[i].0@, es[i].1@))
}

/// The model of a sequence of array items.
pub open spec fn items_view(items: Seq<Json>) -> Seq<JsonView> {
    Seq::new(items.len(), |i: int| items[i]@)
}

/// An optional string, by its view.
pub open spec fn opt_str_view(o: Option<String>) -> Option<Seq<char>> {
    match o {
        Some(s) => Some(s@),
        None => None,
    }
}

/// `es` with the string entry `key: value` appended when `value` is present.
pub open spec fn with_opt_str(
    es: Seq<(Seq<char>, JsonView)>,
    key: Seq<char>,
    value: Option<Seq<char>>,
) -> Seq<(Seq<char>, JsonView)> {
    match value {
        Some(v) => es.push((key, JsonView::Str(v))),
        None => es,
    }
}

/// `es` with the entry `key: value` appended when `value` is present.
pub open spec fn with_opt(
    es: Seq<(Seq<char>, JsonView)>,
    key: Seq<char>,
    value: Option<JsonView>,
) -> Seq<(Seq<char>, JsonView)> {
    match value {
        Some(v) => es.push((key, v)),
        None => es,
    }
}

/// The value of the first entry of `es` whose key is `key`.
pub open spec fn lookup(es: Seq<(Seq<char>, JsonView)>, key: Seq<char>) -> Option<JsonView>
    decreases es.len(),
{
    if es.len() == 0 {
        None
    } else if es[0].0 == key {
        Some(es[0].1)
    } else {
        lookup(es.drop_first(), key)
    }
}

/// The value stored under `key` when `j` is an object.
pub open spec fn field(j: JsonView, key: Seq<char>) -> Option<JsonView> {
    match j {
        JsonView::Object(es) => lookup(es, key),
        _ => None,
    }
}

/// Looking a key up after an entry is appended: an earlier entry with the
/// key still answers; otherwise the new entry answers when its key is the
/// key looked up.
pub broadcast proof fn lemma_lookup_push(
    es: Seq<(Seq<char>, JsonView)>,
    entry: (Seq<char>, JsonView),
    key: Seq<char>,
)
    ensures
        #[trigger] lookup(es.push(entry), key) == match lookup(es, key) {
            Some(v) => Some(v),
            None => if entry.0 == key {
                Some(entry.1)
            } else {
                None
            },
        },
    decreases es.len(),
{
    if es.len() == 0 {
        assert(es.push(entry).drop_first() =~= Seq::<(Seq<char>, JsonView)>::empty());
    } else {
        assert(es.push(entry).drop_first() =~= es.drop_first().push(entry));
        lemma_lookup_push(es.drop_first(), entry, key);
    }
}

/// Nothing is found in an empty entry list.
pub broadcast proof fn lemma_lookup_empty(key: Seq<char>)
    ensures
        #[trigger] lookup(Seq::<(Seq<char>, JsonView)>::empty(), key) is None,
{
}

/// An optional entry under another key does not change what a key looks up.
pub broadcast proof fn lemma_lookup_with_opt_str_other(
    es: Seq<(Seq<char>, JsonView)>,
    k: Seq<char>,
    value: Option<Seq<char>>,
    key: Seq<char>,
)
    requires
        k != key,
    ensures
        #[trigger] lookup(with_opt_str(es, k, value), key) == lookup(es, key),
{
    broadcast use lemma_lookup_push;
}

/// An optional string entry answers its key when no earlier entry does.
pub broadcast proof fn lemma_lookup_with_opt_str_same(
    es: Seq<(Seq<char>, JsonView)>,
    k: Seq<char>,
    value: Option<Seq<char>>,
)
    requires
        lookup(es, k) is None,
    ensures
        #[trigger] lookup(with_opt_str(es, k, value), k) == match value {
            Some(v) => Some(JsonView::Str(v)),
            None => None,
        },
{
    broadcast use lemma_lookup_push;
}

/// An optional entry under another key does not change what a key looks up.
pub broadcast proof fn lemma_lookup_with_opt_other(
    es: Seq<(Seq<char>, JsonView)>,
    k: Seq<char>,
    value: Option<JsonView>,
    key: Seq<char>,
)
    requires
        k != key,
    ensures
        #[trigger] lookup(with_opt(es, k, value), key) == lookup(es, key),
{
    broadcast use lemma_lookup_push;
}

/// An optional entry answers its key when no earlier entry does.
pub broadcast proof fn lemma_lookup_with_opt_same(
    es: Seq<(Seq<char>, JsonView)>,
    k: Seq<char>,
    value: Option<JsonView>,
)
    requires
        lookup(es, k) is None,
    ensures
        #[trigger] lookup(with_opt(es, k, value), k) == value,
{
    broadcast use lemma_lookup_push;
}

/// Looking a key up in two entries: the first with the key answers.
pub proof fn lemma_lookup_two(es: Seq<(Seq<char>, JsonView)>, key: Seq<char>)
    requires
        es.len() == 2,
    ensures
        lookup(es, key) == if es[0].0 == key {
            Some(es[0].1)
        } else if es[1].0 == key {
            Some(es[1].1)
        } else {
            None
        },
{
    reveal_with_fuel(lookup, 3);
    assert(es.drop_first().drop_first() =~= Seq::<(Seq<char>, JsonView)>::empty());
}

/// Looking a key up in three entries: the first with the key answers.
pub proof fn lemma_lookup_three(es: Seq<(Seq<char>, JsonView)>, key: Seq<char>)
    requires
        es.len() == 3,
    ensures
        lookup(es, key) == if es[0].0 == key {
            Some(es[0].1)
        } else if es[1].0 == key {
            Some(es[1].1)
        } else if es[2].0 == key {
            Some(es[2].1)
        } else {
            None
        },
{
    reveal_with_fuel(lookup, 4);
    assert(es.drop_first().drop_first().drop_first() =~= Seq::<(Seq<char>, JsonView)>::empty());
}

pub broadcast group group_lookup_entries {
    lemma_lookup_with_opt_str_other,
    lemma_lookup_with_opt_str_same,
    lemma_lookup_with_opt_other,
    lemma_lookup_with_opt_same,
}

/// Decimal digits of a natural number, most significant first.
pub open spec fn nat_digits(n: nat) -> Seq<char>
    decreases n,
{
    if n < 10 {
        seq![digit_char(n)]
    } else {
        nat_digits(n / 10).push(digit_char(n % 10))
    }
}

/// The ASCII digit for `d < 10`.
pub open spec fn digit_char(d: nat) -> char {
    if d == 0 {
        '0'
    } else if d == 1 {
        '1'
    } else if d == 2 {
        '2'
    } else if d == 3 {
        '3'
    } else if d == 4 {
        '4'
    } else if d == 5 {
        '5'
    } else if d == 6 {
        '6'
    } else if d == 7 {
        '7'
    } else if d == 8 {
        '8'
    } else {
        '9'
    }
}

/// Decimal text of an integer, with a leading `-` when negative.
pub open spec fn int_text(i: int) -> Seq<char> {
    if i < 0 {
        seq!['-'].add(nat_digits((-i) as nat))
    } else {
        nat_digits(i as nat)
    }
}

pub proof fn lemma_entries_view_push(es: Seq<(String, Json)>, e: (String, Json))
    ensures
        entries_view(es.push(e)) == entries_view(es).push((e.0@, e.1@)),
{
    assert(entries_view(es.push(e)) =~= entries_view(es).push((e.0@, e.1@)));
}

pub proof fn lemma_items_view_push(items: Seq<Json>, j: Json)
    ensures
        items_view(items.push(j)) == items_view(items).push(j@),
{
    assert(items_view(items.push(j)) =~= items_view(items).push(j@));
}

/// A string value.
pub fn json_str(s: &str) -> (r: Json)
    ensures
        r@ == JsonView::Str(s@),
{
    Json::Str(s.to_owned())
}

/// A boolean value.
pub fn json_bool(b: bool) -> (r: Json)
    ensures
        r@ == JsonView::Bool(b),
{
    Json::Bool(b)
}

/// An object with the given entries, in order.
pub fn json_object(es: Vec<(String, Json)>) -> (r: Json)
    ensures
        r@ == JsonView::Object(entries_view(es@)),
{
    let r = Json::Object(es);
    assert(r@->Object_0 =~= entries_view(es@));
    r
}

/// An array with the given items, in order.
pub fn json_array(items: Vec<Json>) -> (r: Json)
    ensures
        r@ == JsonView::Array(items_view(items@)),
{
    let r = Json::Array(items);
    assert(r@->Array_0 =~= items_view(items@));
    r
}

/// Appends the entry `key: value`.
pub fn put(es: &mut Vec<(String, Json)>, key: &str, value: Json)
    ensures
        entries_view(final(es)@) == entries_view(old(es)@).push((key@, value@)),
{
    let ghost kv = key@;
    let ghost vv = value@;
    let k = key.to_owned();
    proof {
        lemma_entries_view_push(es@, (k, value));
    }
    es.push((k, value));
}

/// Appends the string entry `key: value`.
pub fn put_str(es: &mut Vec<(String, Json)>, key: &str, value: &str)
    ensures
        entries_view(final(es)@) == entries_view(old(es)@).push((key@, JsonView::Str(value@))),
{
    put(es, key, json_str(value));
}

/// Appends the string entry `key: value` when `value` is present.
pub fn put_opt_str(es: &mut Vec<(String, Json)>, key: &str, value: &Option<String>)
    ensures
        entries_view(final(es)@) == with_opt_str(entries_view(old(es)@), key@, opt_str_view(*value)),
{
    match value {
        Some(v) => put_str(es, key, v.as_str()),
        None => {},
    }
}

/// Appends the entry `key: value` when `value` is present.
pub fn put_opt(es: &mut Vec<(String, Json)>, key: &str, value: Option<Json>)
    ensures
        entries_view(final(es)@) == with_opt(
            entries_view(old(es)@),
            key@,
            match value {
                Some(v) => Some(v@),
                None => None,
            },
        ),
{
    match value {
        Some(v) => put(es, key, v),
        None => {},
    }
}

/// Appends `value` to an array under construction.
pub fn push_item(items: &mut Vec<Json>, value: Json)
    ensures
        items_view(final(items)@) == items_view(old(items)@).push(value@),
{
    proof {
        lemma_items_view_push(items@, value);
    }
    items.push(value);
}

/// Appends one character to a string with std's `String::push`. The
/// contract claims the string's characters gain `c` at their end.
#[verifier::external_body]
pub(crate) fn push_char(s: &mut String, c: char)
    ensures
        final(s)@ == old(s)@.push(c),
{
    s.push(c);
}

fn digit(d: u64) -> (c: char)
    requires
        d < 10,
    ensures
        c == digit_char(d as nat),
{
    if d == 0 {
        '0'
    } else if d == 1 {
        '1'
    } else if d == 2 {
        '2'
    } else if d == 3 {
        '3'
    } else if d == 4 {
        '4'
    } else if d == 5 {
        '5'
    } else if d == 6 {
        '6'
    } else if d == 7 {
        '7'
    } else if d == 8 {
        '8'
    } else {
        '9'
    }
}

/// Appends the decimal digits of `n`.
pub fn push_decimal(s: &mut String, n: u64)
    ensures
        final(s)@ == old(s)@ + nat_digits(n as nat),
    decreases n,
{
    if n >= 10 {
        push_decimal(s, n / 10);
    }
    push_char(s, digit(n % 10));
    proof {
        assert(old(s)@ + nat_digits(n as nat) =~= s@);
    }
}

/// Decimal text of an unsigned integer.
pub fn u64_text(n: u64) -> (r: String)
    ensures
        r@ == int_text(n as int),
{
    let mut s = String::new();
    push_decimal(&mut s, n);
    assert(s@ =~= nat_digits(n as nat));
    s
}

/// Decimal text of a signed integer.
pub fn i64_text(n: i64) -> (r: String)
    ensures
        r@ == int_text(n as int),
{
    let mut s = String::new();
    if n < 0 {
        push_char(&mut s, '-');
        let m: u64 = if n == i64::MIN {
            9223372036854775808u64
        } else {
            (-n) as u64
        };
        push_decimal(&mut s, m);
        assert(s@ =~= seq!['-'].add(nat_digits((-n) as nat)));
    } else {
        push_decimal(&mut s, n as u64);
        assert(s@ =~= nat_digits(n as nat));
    }
    s
}

/// A number value holding the decimal text of `n`.
pub fn json_int(n: i64) -> (r: Json)
    ensures
        r@ == JsonView::Number(int_text(n as int)),
{
    Json::Number(i64_text(n))
}

/// A number value holding the decimal text of `n`.
pub fn json_uint(n: u64) -> (r: Json)
    ensures
        r@ == JsonView::Number(int_text(n as int)),
{
    Json::Number(u64_text(n))
}

impl Json {
    /// The value stored under `key`, when this is an object holding it.
    pub fn get(&self, key: &str) -> (r: Option<&Json>)
        ensures
            match r {
                Some(v) => field(self@, key@) == Some(v@),
                None => field(self@, key@) is None,
            },
    {
        match self {
            Json::Object(es) => {
                let k = key.to_owned();
                let mut i: usize = 0;
                assert(self@->Object_0 =~= entries_view(es@));
                assert(entries_view(es@).skip(0) =~= entries_view(es@));
                while i < es.len()
                    invariant
                        0 <= i <= es.len(),
                        k@ == key@,
                        self@ == JsonView::Object(entries_view(es@)),
                        lookup(entries_view(es@), key@) == lookup(
                            entries_view(es@).skip(i as int),
                            key@,
                        ),
                    decreases es.len() - i,
                {
                    let ghost rest = entries_view(es@).skip(i as int);
                    assert(rest[0] == (es@[i as int].0@, es@[i as int].1@));
                    if es[i].0 == k {
                        return Some(&es[i].1);
                    }
                    assert(rest.drop_first() =~= entries_view(es@).skip(i + 1));
                    i = i + 1;
                }
                None
            },
            _ => None,
        }
    }

    /// The text of this value, when it is a string.
    pub fn as_str(&self) -> (r: Option<&str>)
        ensures
            match self@ {
                JsonView::Str(s) => r is Some && r->0@ == s,
                _ => r is None,
            },
    {
        match self {
            Json::Str(s) => Some(s.as_str()),
            _ => None,
        }
    }
}

/// An equal copy of a JSON value.
pub fn copy_json(j: &Json) -> (r: Json)
    ensures
        r@ == j@,
    decreases j,
{
    match j {
        Json::Null => Json::Null,
        Json::Bool(b) => Json::Bool(*b),
        Json::Number(n) => Json::Number(n.clone()),
        Json::Str(s) => Json::Str(s.clone()),
        Json::Array(items) => {
            let mut out: Vec<Json> = Vec::new();
            let mut i: usize = 0;
            while i < items.len()
                invariant
                    0 <= i <= items.len(),
                    out@.len() == i,
                    *j == Json::Array(*items),
                    forall|k: int| 0 <= k < i ==> (#[trigger] out@[k])@ == items@[k]@,
                decreases items.len() - i,
            {
                proof {
                    assert(decreases_to!(*j => (*j)->Array_0));
                    assert(decreases_to!(*items => items[i as int]));
                }
                out.push(copy_json(&items[i]));
                i = i + 1;
            }
            let r = Json::Array(out);
            assert(r@->Array_0 =~= j@->Array_0);
            r
        },
        Json::Object(es) => {
            let mut out: Vec<(String, Json)> = Vec::new();
            let mut i: usize = 0;
            while i < es.len()
                invariant
                    0 <= i <= es.len(),
                    out@.len() == i,
                    *j == Json::Object(*es),
                    forall|k: int|
                        0 <= k < i ==> (#[trigger] out@[k]).0@ == es@[k].0@ && out@[k].1@
                            == es@[k].1@,
                decreases es.len() - i,
            {
                proof {
                    assert(decreases_to!(*j => (*j)->Object_0));
                    assert(decreases_to!(*es => es[i as int]));
                    assert(decreases_to!(es[i as int] => es[i as int].1));
                }
                out.push((es[i].0.clone(), copy_json(&es[i].1)));
                i = i + 1;
            }
            let r = Json::Object(out);
            assert(r@->Object_0 =~= j@->Object_0);
            r
        },
    }
}

impl Clone for Json {
    /// An equal copy of this value.
    fn clone(&self) -> (r: Self)
        ensures
            r@ == self@,
    {
        copy_json(self)
    }
}

} // verus!
