//! The parameters of a request: values by name, kept in the order of the
//! names, and the texts that the exchanges sign and receive.

use crate::text::decimal;
use crate::text::decimal_of;
use crate::text::json_quote;
use crate::text::json_string_of;
use crate::text::lemma_name_order;
use crate::text::name_before;
use crate::text::percent_encode;
use crate::text::percent_encoded;
use crate::text::sorts_before;
use vstd::prelude::*;
use vstd::string::StringExecFns;

verus! {

/// The value of a parameter.
#[derive(Debug)]
pub enum ParamValue {
    /// No value.
    Null,
    /// A truth value.
    Bool(bool),
    /// An integer.
    Int(i128),
    /// A string.
    Text(String),
    /// The JSON text of any other value: a fraction, an array, an object.
    Raw(String),
}

/// What a parameter value is.
pub enum ValueView {
    /// No value.
    Null,
    /// A truth value.
    Bool(bool),
    /// An integer.
    Int(int),
    /// A string.
    Text(Seq<char>),
    /// The JSON text of any other value.
    Raw(Seq<char>),
}

impl ValueView {
    /// The value as plain text, as it stands in a query and in what is
    /// signed: nothing for no value, the word for a truth value, the decimal
    /// form of an integer, a string as it is, JSON text as it is.
    pub open spec fn flat(self) -> Seq<char> {
        match self {
            ValueView::Null => Seq::empty(),
            ValueView::Bool(b) => if b {
                "true"@
            } else {
                "false"@
            },
            ValueView::Int(n) => decimal_of(n),
            ValueView::Text(s) => s,
            ValueView::Raw(s) => s,
        }
    }

    /// The value as a JSON token, where `quoted` is the JSON string literal of
    /// a string value.
    pub open spec fn token_given(self, quoted: Seq<char>) -> Seq<char> {
        match self {
            ValueView::Null => "null"@,
            ValueView::Bool(b) => if b {
                "true"@
            } else {
                "false"@
            },
            ValueView::Int(n) => decimal_of(n),
            ValueView::Text(_) => quoted,
            ValueView::Raw(s) => s,
        }
    }

    /// The value as a JSON token.
    pub open spec fn token(self) -> Seq<char> {
        match self {
            ValueView::Text(s) => self.token_given(json_string_of(s)),
            _ => self.token_given(Seq::empty()),
        }
    }

    /// Whether the value is left out of what Bybit signs: no value, or an
    /// empty string.
    pub open spec fn blank(self) -> bool {
        match self {
            ValueView::Null => true,
            ValueView::Bool(_) => false,
            ValueView::Int(_) => false,
            ValueView::Text(s) => s.len() == 0,
            ValueView::Raw(s) => s.len() == 0,
        }
    }
}

impl View for ParamValue {
    type V = ValueView;

    open spec fn view(&self) -> ValueView {
        match self {
            ParamValue::Null => ValueView::Null,
            ParamValue::Bool(b) => ValueView::Bool(*b),
            ParamValue::Int(n) => ValueView::Int(*n as int),
            ParamValue::Text(s) => ValueView::Text(s@),
            ParamValue::Raw(s) => ValueView::Raw(s@),
        }
    }
}

impl ParamValue {

    /// The value as plain text.
    pub fn to_flat(&self) -> (text: String)
        ensures
            text@ == self@.flat(),
    {
        match self {
            ParamValue::Null => String::new(),
            ParamValue::Bool(b) => if *b {
                "true".to_owned()
            } else {
                "false".to_owned()
            },
            ParamValue::Int(n) => decimal(*n),
            ParamValue::Text(s) => s.clone(),
            ParamValue::Raw(s) => s.clone(),
        }
    }

    /// The value as a JSON token, where `quoted` is the JSON string literal of
    /// a string value. Any other value does not look at it.
    pub fn token_given(&self, quoted: &str) -> (text: String)
        ensures
            text@ == self@.token_given(quoted@),
    {
        match self {
            ParamValue::Null => "null".to_owned(),
            ParamValue::Bool(b) => if *b {
                "true".to_owned()
            } else {
                "false".to_owned()
            },
            ParamValue::Int(n) => decimal(*n),
            ParamValue::Text(_) => quoted.to_owned(),
            ParamValue::Raw(s) => s.clone(),
        }
    }

    /// The value as a JSON token.
    pub fn to_token(&self) -> (text: String)
        ensures
            text@ == self@.token(),
    {
        match self {
            ParamValue::Text(s) => self.token_given(json_quote(s.as_str()).as_str()),
            _ => {
                proof {
                    reveal_strlit("");
                }
                self.token_given("")
            },
        }
    }

    /// Whether the value is left out of what Bybit signs.
    pub fn is_blank(&self) -> (blank: bool)
        ensures
            blank == self@.blank(),
    {
        match self {
            ParamValue::Null => true,
            ParamValue::Bool(_) => false,
            ParamValue::Int(_) => false,
            ParamValue::Text(s) => s.as_str().unicode_len() == 0,
            ParamValue::Raw(s) => s.as_str().unicode_len() == 0,
        }
    }

    /// A copy of the value.
    pub fn copy(&self) -> (same: Self)
        ensures
            same@ == self@,
    {
        match self {
            ParamValue::Null => ParamValue::Null,
            ParamValue::Bool(b) => ParamValue::Bool(*b),
            ParamValue::Int(n) => ParamValue::Int(*n),
            ParamValue::Text(s) => ParamValue::Text(s.clone()),
            ParamValue::Raw(s) => ParamValue::Raw(s.clone()),
        }
    }
}

/// A parameter: a name and its value.
#[derive(Debug)]
pub struct Param {
    pub name: String,
    pub value: ParamValue,
}

/// What a parameter is: its name and what its value is.
pub type Entry = (Seq<char>, ValueView);

impl View for Param {
    type V = Entry;

    open spec fn view(&self) -> Entry {
        (self.name@, self.value@)
    }
}

/// What the parameters in a vector are, in their order.
pub open spec fn entries_in(items: Seq<Param>) -> Seq<Entry> {
    items.map_values(|p: Param| p@)
}

/// Whether the names rise strictly from each entry to the next.
pub open spec fn names_rise(entries: Seq<Entry>) -> bool {
    forall|i: int, j: int|
        0 <= i < j < entries.len() ==> name_before(
            (#[trigger] entries[i]).0,
            (#[trigger] entries[j]).0,
        )
}

/// Entries in rising order with `p` put in: in the place of the entry of its
/// name where there is one, and otherwise where its name belongs.
pub open spec fn put(entries: Seq<Entry>, p: Entry) -> Seq<Entry>
    decreases entries.len(),
{
    if entries.len() == 0 {
        seq![p]
    } else if name_before(entries[0].0, p.0) {
        seq![entries[0]] + put(entries.drop_first(), p)
    } else if entries[0].0 == p.0 {
        seq![p] + entries.drop_first()
    } else {
        seq![p] + entries
    }
}

/// The value that the entries hold for `name`, if any.
pub open spec fn value_of(entries: Seq<Entry>, name: Seq<char>) -> Option<ValueView>
    decreases entries.len(),
{
    if entries.len() == 0 {
        None
    } else if entries[0].0 == name {
        Some(entries[0].1)
    } else {
        value_of(entries.drop_first(), name)
    }
}

/// Putting `p` at the place `at` of rising entries: every name before `at`
/// sorts before that of `p`, and the entry at `at`, if there is one, has the
/// name of `p` or a later one.
proof fn lemma_put_at(entries: Seq<Entry>, p: Entry, at: int)
    requires
        names_rise(entries),
        0 <= at <= entries.len(),
        forall|i: int| 0 <= i < at ==> name_before((#[trigger] entries[i]).0, p.0),
        at < entries.len() ==> !name_before(entries[at].0, p.0),
    ensures
        at < entries.len() && entries[at].0 == p.0 ==> put(entries, p) == entries.update(
            at,
            p,
        ),
        !(at < entries.len() && entries[at].0 == p.0) ==> put(entries, p)
            == entries.insert(at, p),
        names_rise(put(entries, p)),
    decreases entries.len(),
{
    let replaces = at < entries.len() && entries[at].0 == p.0;
    if entries.len() > 0 && at == 0 {
        if !replaces {
            assert forall|j: int| 0 <= j < entries.len() implies name_before(
                p.0,
                (#[trigger] entries[j]).0,
            ) by {
                lemma_name_order(p.0, entries[0].0, entries[j].0);
                lemma_name_order(entries[0].0, p.0, entries[j].0);
            }
        }
    } else if entries.len() > 0 {
        let rest = entries.drop_first();
        lemma_tail_rises(entries);
        assert forall|i: int| 0 <= i < at - 1 implies name_before(
            (#[trigger] rest[i]).0,
            p.0,
        ) by {
            assert(rest[i] == entries[i + 1]);
        }
        lemma_put_at(rest, p, at - 1);
        let after = put(entries, p);
        assert forall|i: int, j: int| 0 <= i < j < after.len() implies name_before(
            (#[trigger] after[i]).0,
            (#[trigger] after[j]).0,
        ) by {
            if i == 0 && j > at && !replaces {
                lemma_name_order(entries[0].0, p.0, entries[j - 1].0);
            }
        }
    }
}

/// After `p` was put in, its name has its value and every other name has
/// the value it had.
pub proof fn lemma_put_sets_one_name(entries: Seq<Entry>, p: Entry, name: Seq<char>)
    requires
        names_rise(entries),
    ensures
        value_of(put(entries, p), name) == (if name == p.0 {
            Some(p.1)
        } else {
            value_of(entries, name)
        }),
    decreases entries.len(),
{
    if entries.len() == 0 {
        assert(put(entries, p).drop_first() =~= entries);
    } else if name_before(entries[0].0, p.0) {
        let rest = entries.drop_first();
        lemma_tail_rises(entries);
        lemma_put_sets_one_name(rest, p, name);
        assert(put(entries, p).drop_first() =~= put(rest, p));
        lemma_name_order(entries[0].0, p.0, p.0);
    } else if entries[0].0 == p.0 {
        assert(put(entries, p).drop_first() =~= entries.drop_first());
    } else {
        assert(put(entries, p).drop_first() =~= entries);
    }
}

/// A parameter as `name=value`, the value as plain text, percent-encoded
/// where `escaped` is set.
pub open spec fn pair_text(p: Entry, escaped: bool) -> Seq<char> {
    p.0 + "="@ + (if escaped {
        percent_encoded(p.1.flat())
    } else {
        p.1.flat()
    })
}

/// The parameters as `name=value` pairs with `&` between them, in their
/// order. Blank values are left out unless `keep_blank` is set.
pub open spec fn joined_pairs(entries: Seq<Entry>, keep_blank: bool, escaped: bool) -> Seq<char>
    decreases entries.len(),
{
    if entries.len() == 0 {
        Seq::empty()
    } else {
        let head = joined_pairs(entries.drop_last(), keep_blank, escaped);
        if !keep_blank && entries.last().1.blank() {
            head
        } else if head.len() == 0 {
            pair_text(entries.last(), escaped)
        } else {
            head + "&"@ + pair_text(entries.last(), escaped)
        }
    }
}

/// Members of a JSON object with one more after them: the quoted name, a
/// colon and the token, behind a comma where members stand before.
pub open spec fn with_member(head: Seq<char>, quoted_name: Seq<char>, token: Seq<char>) -> Seq<
    char,
> {
    if head.len() == 0 {
        quoted_name + ":"@ + token
    } else {
        head + ","@ + (quoted_name + ":"@ + token)
    }
}

/// Writes one more member after the members in `body`.
pub fn push_member(body: &mut String, quoted_name: &str, token: &str)
    ensures
        final(body)@ == with_member(old(body)@, quoted_name@, token@),
{
    if body.as_str().unicode_len() > 0 {
        body.append(",");
    }
    body.append(quoted_name);
    body.append(":");
    body.append(token);
    assert(body@ =~= with_member(old(body)@, quoted_name@, token@));
}

/// The parameters as members of a JSON object with commas between them, in
/// their order. Blank values are left out unless `keep_blank` is set.
pub open spec fn joined_members(entries: Seq<Entry>, keep_blank: bool) -> Seq<char>
    decreases entries.len(),
{
    if entries.len() == 0 {
        Seq::empty()
    } else {
        let head = joined_members(entries.drop_last(), keep_blank);
        if !keep_blank && entries.last().1.blank() {
            head
        } else {
            with_member(head, json_string_of(entries.last().0), entries.last().1.token())
        }
    }
}

/// The parameters as a JSON object without spaces.
pub open spec fn json_object_of(entries: Seq<Entry>, keep_blank: bool) -> Seq<char> {
    "{"@ + joined_members(entries, keep_blank) + "}"@
}

/// Whether a text holds an opening brace or bracket.
pub open spec fn opens_structure(text: Seq<char>) -> bool {
    exists|i: int| 0 <= i < text.len() && (#[trigger] text[i] == '{' || text[i] == '[')
}

/// Whether the plain text of any value holds an opening brace or bracket.
pub open spec fn any_structure(entries: Seq<Entry>) -> bool {
    exists|i: int| 0 <= i < entries.len() && opens_structure((#[trigger] entries[i]).1.flat())
}

/// Whether a text holds an opening brace or bracket.
pub fn holds_opening(text: &str) -> (found: bool)
    ensures
        found == opens_structure(text@),
{
    let n = text.unicode_len();
    let mut i: usize = 0;
    while i < n
        invariant
            i <= n,
            n == text@.len(),
            forall|j: int| 0 <= j < i ==> !(#[trigger] text@[j] == '{' || text@[j] == '['),
        decreases n - i,
    {
        let c = text.get_char(i);
        if c == '{' || c == '[' {
            return true;
        }
        i += 1;
    }
    false
}

/// The place where `p` belongs in rising entries: behind every entry whose
/// name sorts before its own.
pub open spec fn place_of(entries: Seq<Entry>, p: Entry) -> int
    decreases entries.len(),
{
    if entries.len() == 0 {
        0
    } else if name_before(entries[0].0, p.0) {
        1 + place_of(entries.drop_first(), p)
    } else {
        0
    }
}

/// The tail of rising entries rises.
proof fn lemma_tail_rises(entries: Seq<Entry>)
    requires
        names_rise(entries),
        entries.len() > 0,
    ensures
        names_rise(entries.drop_first()),
{
    let rest = entries.drop_first();
    assert forall|i: int, j: int| 0 <= i < j < rest.len() implies name_before(
        (#[trigger] rest[i]).0,
        (#[trigger] rest[j]).0,
    ) by {
        assert(rest[i] == entries[i + 1] && rest[j] == entries[j + 1]);
    }
}

/// The place of `p` in rising entries splits them: the names before the place
/// sort before that of `p`, and the name at the place does not.
proof fn lemma_place_splits(entries: Seq<Entry>, p: Entry)
    requires
        names_rise(entries),
    ensures
        0 <= place_of(entries, p) <= entries.len(),
        forall|i: int|
            0 <= i < place_of(entries, p) ==> name_before((#[trigger] entries[i]).0, p.0),
        place_of(entries, p) < entries.len() ==> !name_before(
            entries[place_of(entries, p)].0,
            p.0,
        ),
    decreases entries.len(),
{
    if entries.len() > 0 && name_before(entries[0].0, p.0) {
        let rest = entries.drop_first();
        lemma_tail_rises(entries);
        lemma_place_splits(rest, p);
        assert forall|i: int| 0 <= i < place_of(entries, p) implies name_before(
            (#[trigger] entries[i]).0,
            p.0,
        ) by {
            if i > 0 {
                assert(entries[i] == rest[i - 1]);
            }
        }
    }
}

/// Putting a parameter into rising entries leaves them rising.
pub proof fn lemma_put_rises(entries: Seq<Entry>, p: Entry)
    requires
        names_rise(entries),
    ensures
        names_rise(put(entries, p)),
{
    lemma_place_splits(entries, p);
    lemma_put_at(entries, p, place_of(entries, p));
}

/// Rising entries hold no value for a name that sorts before their first.
proof fn lemma_no_value_before_first(entries: Seq<Entry>, name: Seq<char>)
    requires
        names_rise(entries),
        entries.len() > 0 ==> name_before(name, entries[0].0),
    ensures
        value_of(entries, name) is None,
    decreases entries.len(),
{
    if entries.len() > 0 {
        lemma_name_order(name, entries[0].0, name);
        lemma_tail_rises(entries);
        let rest = entries.drop_first();
        if rest.len() > 0 {
            lemma_name_order(name, entries[0].0, entries[1].0);
        }
        lemma_no_value_before_first(rest, name);
    }
}

/// Rising entries are determined by the values of the names: two that hold
/// the same value for every name are the same entries. So parameters kept in
/// the order of their names are a map from names to values, and the order in
/// which they were set does not show.
pub proof fn lemma_rising_is_canonical(x: Seq<Entry>, y: Seq<Entry>)
    requires
        names_rise(x),
        names_rise(y),
        forall|name: Seq<char>| value_of(x, name) == value_of(y, name),
    ensures
        x == y,
    decreases x.len(),
{
    if x.len() == 0 {
        if y.len() > 0 {
            assert(value_of(y, y[0].0) is Some);
        }
    } else if y.len() > 0 {
        lemma_name_order(x[0].0, y[0].0, x[0].0);
        if name_before(x[0].0, y[0].0) {
            lemma_no_value_before_first(y, x[0].0);
        }
        if name_before(y[0].0, x[0].0) {
            lemma_no_value_before_first(x, y[0].0);
        }
        let xs = x.drop_first();
        let ys = y.drop_first();
        lemma_tail_rises(x);
        lemma_tail_rises(y);
        assert forall|name: Seq<char>| value_of(xs, name) == value_of(ys, name) by {
            if name == x[0].0 {
                lemma_no_value_before_first(xs, name);
                lemma_no_value_before_first(ys, name);
            } else {
                assert(value_of(x, name) == value_of(xs, name));
            }
        }
        lemma_rising_is_canonical(xs, ys);
        assert(x =~= seq![x[0]] + xs);
    }
}

/// Setting two different names gives the same parameters in either order.
pub proof fn lemma_put_commutes(entries: Seq<Entry>, a: Entry, b: Entry)
    requires
        names_rise(entries),
        a.0 != b.0,
    ensures
        put(put(entries, a), b) == put(put(entries, b), a),
{
    lemma_put_rises(entries, a);
    lemma_put_rises(entries, b);
    lemma_put_rises(put(entries, a), b);
    lemma_put_rises(put(entries, b), a);
    assert forall|name: Seq<char>|
        value_of(put(put(entries, a), b), name) == value_of(put(put(entries, b), a), name) by {
        lemma_put_sets_one_name(entries, a, name);
        lemma_put_sets_one_name(entries, b, name);
        lemma_put_sets_one_name(put(entries, a), b, name);
        lemma_put_sets_one_name(put(entries, b), a, name);
    }
    lemma_rising_is_canonical(put(put(entries, a), b), put(put(entries, b), a));
}

/// A parameter whose value is a string.
pub open spec fn text_entry(name: Seq<char>, text: Seq<char>) -> Entry {
    (name, ValueView::Text(text))
}

/// A parameter whose value is an integer.
pub open spec fn int_entry(name: Seq<char>, n: int) -> Entry {
    (name, ValueView::Int(n))
}

/// A parameter whose value is a truth value.
pub open spec fn bool_entry(name: Seq<char>, b: bool) -> Entry {
    (name, ValueView::Bool(b))
}

/// A parameter whose value is JSON text.
pub open spec fn raw_entry(name: Seq<char>, json: Seq<char>) -> Entry {
    (name, ValueView::Raw(json))
}

/// The entries with `name` set to the string `text`, where there is one.
pub open spec fn put_text(entries: Seq<Entry>, name: Seq<char>, text: Option<Seq<char>>) -> Seq<
    Entry,
> {
    match text {
        Some(t) => put(entries, text_entry(name, t)),
        None => entries,
    }
}

/// The entries with `name` set to the integer `n`, where there is one.
pub open spec fn put_int(entries: Seq<Entry>, name: Seq<char>, n: Option<int>) -> Seq<Entry> {
    match n {
        Some(n) => put(entries, int_entry(name, n)),
        None => entries,
    }
}

/// The entries with `name` set to the truth value `b`, where there is one.
pub open spec fn put_bool(entries: Seq<Entry>, name: Seq<char>, b: Option<bool>) -> Seq<Entry> {
    match b {
        Some(b) => put(entries, bool_entry(name, b)),
        None => entries,
    }
}

/// What an optional string is.
pub open spec fn text_of(text: Option<&str>) -> Option<Seq<char>> {
    match text {
        Some(t) => Some(t@),
        None => None,
    }
}

/// The entries of `base` with every entry of `extra` that has a value put
/// in, in the order of `extra`.
pub open spec fn merged(base: Seq<Entry>, extra: Seq<Entry>) -> Seq<Entry>
    decreases extra.len(),
{
    if extra.len() == 0 {
        base
    } else if extra.last().1 is Null {
        merged(base, extra.drop_last())
    } else {
        put(merged(base, extra.drop_last()), extra.last())
    }
}

/// The parameters of a request, each name once, in the order of the names.
#[derive(Debug)]
pub struct Params {
    items: Vec<Param>,
}

impl Params {
    #[verifier::type_invariant]
    spec fn sorted(self) -> bool {
        names_rise(entries_in(self.items@))
    }

    /// The parameters in the order of their names.
    pub closed spec fn view(&self) -> Seq<Entry> {
        entries_in(self.items@)
    }

    /// No parameters.
    pub fn new() -> (params: Self)
        ensures
            params@ == Seq::<Entry>::empty(),
    {
        let params = Params { items: Vec::new() };
        params
    }

    /// The number of parameters. Their names rise strictly, so no name
    /// stands twice.
    pub fn len(&self) -> (n: usize)
        ensures
            n == self@.len(),
            names_rise(self@),
    {
        proof {
            use_type_invariant(self);
        }
        self.items.len()
    }

    /// Whether there is no parameter.
    pub fn is_empty(&self) -> (empty: bool)
        ensures
            empty == (self@.len() == 0),
    {
        self.items.len() == 0
    }

    /// The parameter at a place in the order of the names.
    pub fn at(&self, i: usize) -> (p: &Param)
        requires
            i < self@.len(),
        ensures
            p@ == self@[i as int],
    {
        &self.items[i]
    }

    /// Sets `name` to `value`, over the value it had, if any.
    pub fn insert(&mut self, name: String, value: ParamValue)
        ensures
            final(self)@ == put(old(self)@, (name@, value@)),
    {
        proof {
            use_type_invariant(&*self);
        }
        let mut items: Vec<Param> = Vec::new();
        core::mem::swap(&mut self.items, &mut items);
        let p = Param { name, value };
        let ghost before = entries_in(items@);
        let mut at: usize = 0;
        while at < items.len() && sorts_before(items[at].name.as_str(), p.name.as_str())
            invariant
                at <= items@.len(),
                before == entries_in(items@),
                forall|i: int| 0 <= i < at ==> name_before((#[trigger] before[i]).0, p@.0),
            decreases items@.len() - at,
        {
            at += 1;
        }
        proof {
            lemma_put_at(before, p@, at as int);
        }
        if at < items.len() && items[at].name == p.name {
            items.set(at, p);
            assert(entries_in(items@) =~= before.update(at as int, p@));
        } else {
            items.insert(at, p);
            assert(entries_in(items@) =~= before.insert(at as int, p@));
        }
        self.items = items;
    }

    /// Sets `name` to the string `text`.
    pub fn set_text(&mut self, name: &str, text: &str)
        ensures
            final(self)@ == put(old(self)@, text_entry(name@, text@)),
    {
        self.insert(name.to_owned(), ParamValue::Text(text.to_owned()));
    }

    /// Sets `name` to the string `text`, where there is one.
    pub fn set_text_opt(&mut self, name: &str, text: Option<&str>)
        ensures
            final(self)@ == put_text(old(self)@, name@, text_of(text)),
    {
        if let Some(text) = text {
            self.set_text(name, text);
        }
    }

    /// Sets `name` to the integer `n`.
    pub fn set_int(&mut self, name: &str, n: i128)
        ensures
            final(self)@ == put(old(self)@, int_entry(name@, n as int)),
    {
        self.insert(name.to_owned(), ParamValue::Int(n));
    }

    /// Sets `name` to the truth value `b`.
    pub fn set_bool(&mut self, name: &str, b: bool)
        ensures
            final(self)@ == put(old(self)@, bool_entry(name@, b)),
    {
        self.insert(name.to_owned(), ParamValue::Bool(b));
    }

    /// Sets `name` to the JSON text `json`.
    pub fn set_raw(&mut self, name: &str, json: String)
        ensures
            final(self)@ == put(old(self)@, raw_entry(name@, json@)),
    {
        self.insert(name.to_owned(), ParamValue::Raw(json));
    }

    /// Puts in every parameter of `extra` that has a value, over the value
    /// that its name had.
    pub fn merge(&mut self, extra: &Params)
        ensures
            final(self)@ == merged(old(self)@, extra@),
    {
        let ghost all = entries_in(extra.items@);
        let mut i: usize = 0;
        while i < extra.items.len()
            invariant
                i <= extra.items@.len(),
                all == entries_in(extra.items@),
                self@ == merged(old(self)@, all.take(i as int)),
            decreases extra.items@.len() - i,
        {
            let p = &extra.items[i];
            proof {
                assert(all.take(i + 1).drop_last() =~= all.take(i as int));
            }
            match &p.value {
                ParamValue::Null => {},
                value => {
                    self.insert(p.name.clone(), value.copy());
                },
            }
            i += 1;
        }
        assert(all.take(i as int) =~= all);
    }

    /// The value of `name`, if it has one.
    pub fn get(&self, name: &str) -> (value: Option<&ParamValue>)
        ensures
            match value {
                Some(v) => value_of(self@, name@) == Some(v@),
                None => value_of(self@, name@) is None,
            },
    {
        let wanted = name.to_owned();
        let ghost all = entries_in(self.items@);
        let mut i: usize = 0;
        assert(all.skip(0) =~= all);
        while i < self.items.len()
            invariant
                i <= self.items@.len(),
                wanted@ == name@,
                all == entries_in(self.items@),
                value_of(all, name@) == value_of(all.skip(i as int), name@),
            decreases self.items@.len() - i,
        {
            assert(all.skip(i as int).drop_first() =~= all.skip(i + 1));
            if self.items[i].name == wanted {
                return Some(&self.items[i].value);
            }
            i += 1;
        }
        None
    }

    /// The parameters as `name=value` pairs with `&` between them. Blank
    /// values are left out unless `keep_blank` is set, and values are
    /// percent-encoded where `escaped` is set.
    pub fn to_query(&self, keep_blank: bool, escaped: bool) -> (text: String)
        ensures
            text@ == joined_pairs(self@, keep_blank, escaped),
    {
        let ghost all = entries_in(self.items@);
        let mut text = String::new();
        let mut i: usize = 0;
        while i < self.items.len()
            invariant
                i <= self.items@.len(),
                all == entries_in(self.items@),
                text@ == joined_pairs(all.take(i as int), keep_blank, escaped),
            decreases self.items@.len() - i,
        {
            let p = &self.items[i];
            proof {
                reveal_strlit("=");
                assert(all.take(i + 1).drop_last() =~= all.take(i as int));
            }
            if keep_blank || !p.value.is_blank() {
                if text.as_str().unicode_len() > 0 {
                    text.append("&");
                }
                text.append(p.name.as_str());
                text.append("=");
                let flat = p.value.to_flat();
                if escaped {
                    text.append(percent_encode(flat.as_str()).as_str());
                } else {
                    text.append(flat.as_str());
                }
            }
            i += 1;
        }
        assert(all.take(i as int) =~= all);
        text
    }

    /// The parameters as a JSON object without spaces. Blank values are left
    /// out unless `keep_blank` is set.
    pub fn to_json(&self, keep_blank: bool) -> (text: String)
        ensures
            text@ == json_object_of(self@, keep_blank),
    {
        let ghost all = entries_in(self.items@);
        let mut body = String::new();
        let mut i: usize = 0;
        while i < self.items.len()
            invariant
                i <= self.items@.len(),
                all == entries_in(self.items@),
                body@ == joined_members(all.take(i as int), keep_blank),
            decreases self.items@.len() - i,
        {
            let p = &self.items[i];
            proof {
                assert(all.take(i + 1).drop_last() =~= all.take(i as int));
                assert(all.take(i + 1).last() == p@);
            }
            if keep_blank || !p.value.is_blank() {
                let quoted = json_quote(p.name.as_str());
                let token = p.value.to_token();
                push_member(&mut body, quoted.as_str(), token.as_str());
            }
            i += 1;
        }
        assert(all.take(i as int) =~= all);
        let mut text = "{".to_owned();
        text.append(body.as_str());
        text.append("}");
        text
    }

    /// Whether the plain text of any value holds an opening brace or bracket.
    pub fn has_structure(&self) -> (found: bool)
        ensures
            found == any_structure(self@),
    {
        let ghost all = entries_in(self.items@);
        let mut i: usize = 0;
        while i < self.items.len()
            invariant
                i <= self.items@.len(),
                all == entries_in(self.items@),
                forall|j: int| 0 <= j < i ==> !opens_structure((#[trigger] all[j]).1.flat()),
            decreases self.items@.len() - i,
        {
            let flat = self.items[i].value.to_flat();
            assert(all[i as int] == self.items@[i as int]@);
            if holds_opening(flat.as_str()) {
                return true;
            }
            i += 1;
        }
        false
    }

    /// A copy of the parameters.
    pub fn copy(&self) -> (same: Self)
        ensures
            same@ == self@,
    {
        proof {
            use_type_invariant(self);
        }
        let mut items: Vec<Param> = Vec::new();
        let mut i: usize = 0;
        while i < self.items.len()
            invariant
                i <= self.items@.len(),
                items@.len() == i,
                forall|j: int| 0 <= j < i ==> (#[trigger] items@[j])@ == self.items@[j]@,
            decreases self.items@.len() - i,
        {
            let p = &self.items[i];
            items.push(Param { name: p.name.clone(), value: p.value.copy() });
            i += 1;
        }
        assert(entries_in(items@) =~= entries_in(self.items@));
        Params { items }
    }
}

} // verus!
