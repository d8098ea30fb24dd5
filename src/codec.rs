//! The store's raw shape (a mapping from record id to a mapping from field name
//! to a loosely typed value) and its conversion to and from reminders.
use vstd::prelude::*;
use vstd::string::*;
use crate::text::{decimal, decimal_text, json_quoted, null_text, object_text, pair_views, quote, write_object};
use crate::reminder::{
    fix_case, fixed_case, lemma_fix_case_idempotent, opt_view, upper_settles, Reminder, ReminderView,
};

verus! {

/// What the codec reads of a stored JSON value.
#[derive(Debug, Clone)]
pub enum JsonField {
    /// JSON `null`.
    Null,
    /// A JSON string.
    Text(String),
    /// A JSON number that is a non-negative integer fitting in 64 bits.
    Unsigned(u64),
    /// Anything else (a boolean, another number, an array or an object), as its JSON text.
    Other(String),
}

/// The mathematical value of a stored JSON value.
pub enum FieldView {
    Null,
    Text(Seq<char>),
    Unsigned(u64),
    Other(Seq<char>),
}

impl View for JsonField {
    type V = FieldView;

    open spec fn view(&self) -> FieldView {
        match self {
            JsonField::Null => FieldView::Null,
            JsonField::Text(s) => FieldView::Text(s@),
            JsonField::Unsigned(n) => FieldView::Unsigned(*n),
            JsonField::Other(t) => FieldView::Other(t@),
        }
    }
}

/// The fields of one stored record, by name.
pub type FieldsView = Seq<(Seq<char>, FieldView)>;

/// A stored collection: records by id.
pub type RawView = Seq<(Seq<char>, FieldsView)>;

/// No key occurs twice.
pub open spec fn distinct_keys<V>(s: Seq<(Seq<char>, V)>) -> bool {
    forall|i: int, j: int| 0 <= i < j < s.len() ==> s[i].0 != s[j].0
}

/// Some entry has key `k`.
pub open spec fn has_key<V>(s: Seq<(Seq<char>, V)>, k: Seq<char>) -> bool {
    exists|i: int| 0 <= i < s.len() && s[i].0 == k
}

/// The position of an entry with key `k`, when there is one.
pub open spec fn key_index<V>(s: Seq<(Seq<char>, V)>, k: Seq<char>) -> int {
    choose|i: int| 0 <= i < s.len() && s[i].0 == k
}

/// The value under key `k`, when there is one.
pub open spec fn value_at<V>(s: Seq<(Seq<char>, V)>, k: Seq<char>) -> Option<V> {
    if has_key(s, k) {
        Some(s[key_index(s, k)].1)
    } else {
        None
    }
}

/// The entries after storing `v` under `k`: the entry with that key is replaced,
/// or a new one is added at the end.
pub open spec fn put_entry<V>(s: Seq<(Seq<char>, V)>, k: Seq<char>, v: V) -> Seq<(Seq<char>, V)> {
    if has_key(s, k) {
        s.update(key_index(s, k), (k, v))
    } else {
        s.push((k, v))
    }
}

/// The position of the entry whose key is `key`, if any.
fn find_key<V>(entries: &Vec<(String, V)>, key: &String) -> (r: Option<usize>)
    ensures
        match r {
            Some(i) => i < entries@.len() && entries@[i as int].0@ == key@,
            None => forall|j: int| 0 <= j < entries@.len() ==> entries@[j].0@ != key@,
        },
{
    let mut i: usize = 0;
    while i < entries.len()
        invariant
            i <= entries@.len(),
            forall|j: int| 0 <= j < i ==> entries@[j].0@ != key@,
        decreases entries@.len() - i,
    {
        if entries[i].0 == *key {
            return Some(i);
        }
        i = i + 1;
    }
    None
}

/// The fields of one stored record.
#[derive(Debug)]
pub struct RawRecord {
    fields: Vec<(String, JsonField)>,
}

impl View for RawRecord {
    type V = FieldsView;

    closed spec fn view(&self) -> FieldsView {
        self.fields@.map_values(|p: (String, JsonField)| (p.0@, p.1@))
    }
}

impl RawRecord {
    /// Field names are distinct.
    #[verifier::type_invariant]
    pub closed spec fn wf(&self) -> bool {
        distinct_keys(self@)
    }

    /// A record without fields.
    pub fn new() -> (r: RawRecord)
        ensures
            r@ == Seq::<(Seq<char>, FieldView)>::empty(),
    {
        RawRecord { fields: Vec::new() }
    }

    /// Stores `value` under `name`, replacing what was there.
    pub fn insert(&mut self, name: String, value: JsonField)
        ensures
            final(self)@ == put_entry(old(self)@, name@, value@),
    {
        let mut taken = RawRecord::new();
        core::mem::swap(self, &mut taken);
        proof {
            use_type_invariant(&taken);
        }
        let ghost before = taken@;
        let RawRecord { mut fields } = taken;
        let ghost k = name@;
        let ghost v = value@;
        match find_key(&fields, &name) {
            Some(i) => {
                proof {
                    assert(before[i as int].0 == k);
                    assert(has_key(before, k));
                    assert(key_index(before, k) == i as int);
                }
                fields[i] = (name, value);
            },
            None => {
                proof {
                    assert forall|j: int| 0 <= j < before.len() implies before[j].0 != k by {
                        assert(before[j].0 == fields@[j].0@);
                    }
                    assert(!has_key(before, k));
                }
                fields.push((name, value));
            },
        }
        let ghost after = fields@.map_values(|p: (String, JsonField)| (p.0@, p.1@));
        assert(after =~= put_entry(before, k, v));
        *self = RawRecord { fields };
    }

    /// The field under `name`, if any.
    fn find(&self, name: &String) -> (r: Option<usize>)
        ensures
            match r {
                Some(i) => i < self.fields@.len() && has_key(self@, name@) && key_index(
                    self@,
                    name@,
                ) == i as int,
                None => !has_key(self@, name@),
            },
    {
        proof {
            use_type_invariant(self);
        }
        let r = find_key(&self.fields, name);
        proof {
            match r {
                Some(i) => {
                    assert(self@[i as int].0 == name@);
                    assert(has_key(self@, name@));
                },
                None => {
                    assert forall|j: int| 0 <= j < self@.len() implies self@[j].0 != name@ by {
                        assert(self@[j].0 == self.fields@[j].0@);
                    }
                },
            }
        }
        r
    }

    /// The text under `name`, when the field is present and a string.
    pub fn text_of(&self, name: &String) -> (r: Option<String>)
        ensures
            opt_view(r) == text_or_absent(value_at(self@, name@)),
    {
        match self.find(name) {
            Some(i) => match &self.fields[i].1 {
                JsonField::Text(s) => Some(s.clone()),
                _ => None,
            },
            None => None,
        }
    }

    /// The number under `name`, when the field is present and a non-negative integer; else 0.
    pub fn number_of(&self, name: &String) -> (r: u64)
        ensures
            r == number_or_zero(value_at(self@, name@)),
    {
        match self.find(name) {
            Some(i) => match &self.fields[i].1 {
                JsonField::Unsigned(n) => *n,
                _ => 0,
            },
            None => 0,
        }
    }
}

/// The text of a field that is a JSON string; absent otherwise.
pub open spec fn text_or_absent(f: Option<FieldView>) -> Option<Seq<char>> {
    match f {
        Some(FieldView::Text(t)) => Some(t),
        _ => None,
    }
}

/// The text of a field that is a JSON string; empty otherwise.
pub open spec fn text_or_empty(f: Option<FieldView>) -> Seq<char> {
    match f {
        Some(FieldView::Text(t)) => t,
        _ => Seq::empty(),
    }
}

/// The number of a field that is a non-negative integer; 0 otherwise.
pub open spec fn number_or_zero(f: Option<FieldView>) -> u64 {
    match f {
        Some(FieldView::Unsigned(n)) => n,
        _ => 0,
    }
}

/// The reminder that a stored record with key `id` reads as.
pub open spec fn decode_record(id: Seq<char>, fields: FieldsView) -> ReminderView {
    ReminderView {
        id: Some(id),
        title: fixed_case(text_or_empty(value_at(fields, "title"@))),
        due: number_or_zero(value_at(fields, "due"@)),
        priority: number_or_zero(value_at(fields, "priority"@)),
        assignee: text_or_absent(value_at(fields, "assignee"@)),
    }
}

/// The reminders that a stored collection reads as, one per record, in the same order.
pub open spec fn decode(raw: RawView) -> Seq<ReminderView> {
    raw.map_values(|e: (Seq<char>, FieldsView)| decode_record(e.0, e.1))
}

/// The views of a list of reminders.
pub open spec fn reminder_views(v: Seq<Reminder>) -> Seq<ReminderView> {
    v.map_values(|r: Reminder| r@)
}

/// A stored collection: records by id.
#[derive(Debug)]
pub struct RawMapping {
    entries: Vec<(String, RawRecord)>,
}

impl View for RawMapping {
    type V = RawView;

    closed spec fn view(&self) -> RawView {
        self.entries@.map_values(|p: (String, RawRecord)| (p.0@, p.1@))
    }
}

impl RawMapping {
    /// Ids are distinct.
    #[verifier::type_invariant]
    pub closed spec fn wf(&self) -> bool {
        distinct_keys(self@)
    }

    /// An empty collection.
    pub fn new() -> (r: RawMapping)
        ensures
            r@ == Seq::<(Seq<char>, FieldsView)>::empty(),
    {
        RawMapping { entries: Vec::new() }
    }

    /// The number of records.
    pub fn len(&self) -> (r: usize)
        ensures
            r == self@.len(),
    {
        self.entries.len()
    }

    /// Stores `record` under `id`, replacing what was there.
    pub fn insert(&mut self, id: String, record: RawRecord)
        ensures
            final(self)@ == put_entry(old(self)@, id@, record@),
    {
        let mut taken = RawMapping::new();
        core::mem::swap(self, &mut taken);
        proof {
            use_type_invariant(&taken);
        }
        let ghost before = taken@;
        let RawMapping { mut entries } = taken;
        let ghost k = id@;
        let ghost v = record@;
        match find_key(&entries, &id) {
            Some(i) => {
                proof {
                    assert(before[i as int].0 == k);
                    assert(has_key(before, k));
                    assert(key_index(before, k) == i as int);
                }
                entries[i] = (id, record);
            },
            None => {
                proof {
                    assert forall|j: int| 0 <= j < before.len() implies before[j].0 != k by {
                        assert(before[j].0 == entries@[j].0@);
                    }
                    assert(!has_key(before, k));
                }
                entries.push((id, record));
            },
        }
        let ghost after = entries@.map_values(|p: (String, RawRecord)| (p.0@, p.1@));
        assert(after =~= put_entry(before, k, v));
        *self = RawMapping { entries };
    }
}

/// The reminder that one stored record reads as.
fn decode_one(id: &String, fields: &RawRecord) -> (r: Reminder)
    ensures
        r@ == decode_record(id@, fields@),
{
    let title = match fields.text_of(&String::from_str("title")) {
        Some(t) => fix_case(t.as_str()),
        None => {
            proof {
                reveal_strlit("");
                assert(""@ =~= Seq::<char>::empty());
            }
            fix_case("")
        },
    };
    assert(title@ == fixed_case(text_or_empty(value_at(fields@, "title"@))));
    Reminder {
        id: Some(id.clone()),
        title,
        due: fields.number_of(&String::from_str("due")),
        priority: fields.number_of(&String::from_str("priority")),
        assignee: fields.text_of(&String::from_str("assignee")),
    }
}

impl Reminder {
    /// Reads every stored record as a reminder, in the collection's order.
    ///
    /// Reading is lenient: a missing or mistyped `title`, `due` or `priority`
    /// reads as the empty string or 0, and an `assignee` that is not a string
    /// reads as absent. The title's first character is upper-cased.
    pub fn from_json(json: RawMapping) -> (r: Vec<Reminder>)
        ensures
            reminder_views(r@) == decode(json@),
            distinct_keys(json@),
            r@.len() == json@.len(),
            forall|i: int|
                0 <= i < r@.len() ==> {
                    &&& !has_key(#[trigger] json@[i].1, "title"@) ==> r@[i]@.title.len() == 0
                    &&& !has_key(json@[i].1, "due"@) ==> r@[i]@.due == 0
                    &&& !has_key(json@[i].1, "priority"@) ==> r@[i]@.priority == 0
                    &&& !(value_at(json@[i].1, "assignee"@) matches Some(FieldView::Text(_)))
                        ==> r@[i]@.assignee is None
                    &&& r@[i]@.id == Some(json@[i].0)
                },
    {
        proof {
            use_type_invariant(&json);
        }
        let mut out: Vec<Reminder> = Vec::new();
        let mut i: usize = 0;
        while i < json.entries.len()
            invariant
                i <= json.entries@.len(),
                out@.len() == i,
                forall|j: int| 0 <= j < i ==> (#[trigger] out@[j])@ == decode_record(json@[j].0, json@[j].1),
            decreases json.entries@.len() - i,
        {
            let r = decode_one(&json.entries[i].0, &json.entries[i].1);
            out.push(r);
            i = i + 1;
        }
        proof {
            assert(reminder_views(out@) =~= decode(json@));
        }
        out
    }
}

/// The key a reminder is stored under: its id, or the empty string without one.
pub open spec fn key_of(r: ReminderView) -> Seq<char> {
    match r.id {
        Some(id) => id,
        None => Seq::empty(),
    }
}

/// The stored fields of a reminder.
pub open spec fn encode_record(r: ReminderView) -> FieldsView {
    seq![
        ("title"@, FieldView::Text(r.title)),
        ("due"@, FieldView::Unsigned(r.due)),
        ("priority"@, FieldView::Unsigned(r.priority)),
        (
            "assignee"@,
            match r.assignee {
                Some(a) => FieldView::Text(a),
                None => FieldView::Null,
            },
        ),
    ]
}

/// The stored collection for a list of reminders: each is stored under its key
/// in turn, so a later reminder replaces an earlier one with the same key.
pub open spec fn encode(rs: Seq<ReminderView>) -> RawView
    decreases rs.len(),
{
    if rs.len() == 0 {
        Seq::empty()
    } else {
        put_entry(encode(rs.drop_last()), key_of(rs.last()), encode_record(rs.last()))
    }
}

/// The four field names are distinct.
proof fn lemma_field_names()
    ensures
        distinct_keys(encode_record(arbitrary())),
        "title"@ != "due"@,
        "title"@ != "priority"@,
        "title"@ != "assignee"@,
        "due"@ != "priority"@,
        "due"@ != "assignee"@,
        "priority"@ != "assignee"@,
{
    reveal_strlit("title");
    reveal_strlit("due");
    reveal_strlit("priority");
    reveal_strlit("assignee");
    assert("title"@.len() != "due"@.len());
    assert("title"@.len() != "priority"@.len());
    assert("due"@.len() != "assignee"@.len());
    assert("priority"@[0] != "assignee"@[0]);
    assert("title"@.len() != "assignee"@.len());
    assert("due"@.len() != "priority"@.len());
}

/// The stored record of one reminder.
fn encode_one(r: &Reminder) -> (f: RawRecord)
    ensures
        f@ == encode_record(r@),
{
    proof {
        lemma_field_names();
    }
    let mut f = RawRecord::new();
    f.insert(String::from_str("title"), JsonField::Text(r.title.clone()));
    f.insert(String::from_str("due"), JsonField::Unsigned(r.due));
    f.insert(String::from_str("priority"), JsonField::Unsigned(r.priority));
    let assignee = match &r.assignee {
        Some(a) => JsonField::Text(a.clone()),
        None => JsonField::Null,
    };
    f.insert(String::from_str("assignee"), assignee);
    proof {
        assert(f@ =~= encode_record(r@));
    }
    f
}

/// Stores each reminder under its id (the empty string when it has none), in
/// order; a later reminder replaces an earlier one with the same key.
pub fn reminders_to_firebase(reminders: Vec<Reminder>) -> (r: RawMapping)
    ensures
        r@ == encode(reminder_views(reminders@)),
{
    let mut out = RawMapping::new();
    let mut i: usize = 0;
    while i < reminders.len()
        invariant
            i <= reminders@.len(),
            out@ == encode(reminder_views(reminders@.take(i as int))),
        decreases reminders@.len() - i,
    {
        let r = &reminders[i];
        let key = match &r.id {
            Some(id) => id.clone(),
            None => String::new(),
        };
        let fields = encode_one(r);
        proof {
            let next = reminder_views(reminders@.take(i as int + 1));
            assert(next.drop_last() =~= reminder_views(reminders@.take(i as int)));
            assert(next.last() == r@);
        }
        out.insert(key, fields);
        i = i + 1;
    }
    assert(reminders@.take(i as int) =~= reminders@);
    out
}

/// In a collection with distinct keys, the value under an entry's key is that entry's.
proof fn lemma_value_at_index<V>(s: Seq<(Seq<char>, V)>, i: int)
    requires
        distinct_keys(s),
        0 <= i < s.len(),
    ensures
        value_at(s, s[i].0) == Some(s[i].1),
{
    assert(has_key(s, s[i].0));
    let k = key_index(s, s[i].0);
    assert(k == i);
}

/// Reminders with distinct ids are stored one entry each, in order.
proof fn lemma_encode_keyed(ds: Seq<ReminderView>)
    requires
        forall|i: int| 0 <= i < ds.len() ==> (#[trigger] ds[i]).id is Some,
        forall|i: int, j: int| 0 <= i < j < ds.len() ==> (#[trigger] ds[i]).id != (#[trigger] ds[j]).id,
    ensures
        encode(ds) == ds.map_values(|d: ReminderView| (key_of(d), encode_record(d))),
    decreases ds.len(),
{
    let f = |d: ReminderView| (key_of(d), encode_record(d));
    if ds.len() > 0 {
        let init = ds.drop_last();
        lemma_encode_keyed(init);
        let prev = encode(init);
        let last = ds.last();
        assert forall|j: int| 0 <= j < prev.len() implies prev[j].0 != key_of(last) by {
            assert(prev[j].0 == key_of(ds[j]));
            assert(ds[j].id != ds[ds.len() - 1].id);
        }
        assert(!has_key(prev, key_of(last)));
        assert(encode(ds) =~= ds.map_values(f));
    }
}

/// The raw title of each record starts with a character whose uppercase mapping
/// starts with an upper-case character.
pub open spec fn titles_settle(raw: RawView) -> bool {
    forall|i: int|
        0 <= i < raw.len() ==> {
            let t = text_or_empty(value_at(#[trigger] raw[i].1, "title"@));
            t.len() > 0 ==> upper_settles(t[0])
        }
}

/// Reading a stored collection, storing what was read, and reading that again
/// gives what was read the first time: ids, due dates, priorities and assignees
/// are kept, and fixing a title's case a second time changes nothing.
pub proof fn lemma_decode_round_trip(raw: RawView)
    requires
        distinct_keys(raw),
        titles_settle(raw),
    ensures
        decode(encode(decode(raw))) == decode(raw),
{
    let ds = decode(raw);
    assert forall|i: int, j: int| 0 <= i < j < ds.len() implies (#[trigger] ds[i]).id != (
    #[trigger] ds[j]).id by {
        assert(raw[i].0 != raw[j].0);
    }
    lemma_encode_keyed(ds);
    lemma_field_names();
    let enc = encode(ds);
    assert forall|i: int| 0 <= i < ds.len() implies decode_record(enc[i].0, enc[i].1) == ds[i] by {
        let d = ds[i];
        let fields = encode_record(d);
        assert(enc[i] == (key_of(d), fields));
        lemma_value_at_index(fields, 0);
        lemma_value_at_index(fields, 1);
        lemma_value_at_index(fields, 2);
        lemma_value_at_index(fields, 3);
        lemma_fix_case_idempotent(text_or_empty(value_at(raw[i].1, "title"@)));
    }
    assert(decode(enc) =~= ds);
}

/// The JSON text of a stored value.
pub open spec fn field_json(v: FieldView) -> Seq<char> {
    match v {
        FieldView::Null => null_text(),
        FieldView::Text(t) => json_quoted(t),
        FieldView::Unsigned(n) => decimal(n as nat),
        FieldView::Other(t) => t,
    }
}

/// The JSON text of a stored record: an object of its fields, in order.
pub open spec fn fields_json(f: FieldsView) -> Seq<char> {
    object_text(f.map_values(|p: (Seq<char>, FieldView)| (p.0, field_json(p.1))))
}

/// The JSON text of a stored collection: an object of its records, in order.
pub open spec fn raw_json(raw: RawView) -> Seq<char> {
    object_text(raw.map_values(|e: (Seq<char>, FieldsView)| (e.0, fields_json(e.1))))
}

impl JsonField {
    /// The JSON text of this value.
    pub fn to_json(&self) -> (r: String)
        ensures
            r@ == field_json(self@),
    {
        match self {
            JsonField::Null => {
                proof {
                    reveal_strlit("null");
                }
                String::from_str("null")
            },
            JsonField::Text(t) => quote(t.as_str()),
            JsonField::Unsigned(n) => decimal_text(*n),
            JsonField::Other(t) => t.clone(),
        }
    }
}

impl RawRecord {
    /// The JSON text of this record: an object of its fields, in order.
    pub fn to_json(&self) -> (r: String)
        ensures
            r@ == fields_json(self@),
    {
        let mut members: Vec<(String, String)> = Vec::new();
        let mut i: usize = 0;
        while i < self.fields.len()
            invariant
                i <= self.fields@.len(),
                members@.len() == i,
                forall|j: int|
                    0 <= j < i ==> (#[trigger] members@[j]).0@ == self@[j].0 && members@[j].1@
                        == field_json(self@[j].1),
            decreases self.fields@.len() - i,
        {
            let text = self.fields[i].1.to_json();
            members.push((self.fields[i].0.clone(), text));
            proof {
                assert(self@[i as int] == (self.fields@[i as int].0@, self.fields@[i as int].1@));
            }
            i = i + 1;
        }
        proof {
            assert(pair_views(members@) =~= self@.map_values(
                |p: (Seq<char>, FieldView)| (p.0, field_json(p.1)),
            ));
        }
        write_object(&members)
    }
}

impl RawMapping {
    /// The JSON text of this collection: an object of its records, in order.
    pub fn to_json(&self) -> (r: String)
        ensures
            r@ == raw_json(self@),
    {
        let mut members: Vec<(String, String)> = Vec::new();
        let mut i: usize = 0;
        while i < self.entries.len()
            invariant
                i <= self.entries@.len(),
                members@.len() == i,
                forall|j: int|
                    0 <= j < i ==> (#[trigger] members@[j]).0@ == self@[j].0 && members@[j].1@
                        == fields_json(self@[j].1),
            decreases self.entries@.len() - i,
        {
            let text = self.entries[i].1.to_json();
            members.push((self.entries[i].0.clone(), text));
            proof {
                assert(self@[i as int] == (self.entries@[i as int].0@, self.entries@[i as int].1@));
            }
            i = i + 1;
        }
        proof {
            assert(pair_views(members@) =~= self@.map_values(
                |e: (Seq<char>, FieldsView)| (e.0, fields_json(e.1)),
            ));
        }
        write_object(&members)
    }
}

} // verus!
