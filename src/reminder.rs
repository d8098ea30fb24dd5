//! The reminder record, its title normalisation and its JSON text.
use vstd::prelude::*;
use vstd::string::*;
use crate::text::{
    char_upper, decimal, decimal_text, json_quoted, null_text, object_text, pair_views, quote,
    upper_of, write_object,
};

verus! {

/// The title as presented: the first character upper-cased, the rest untouched.
pub open spec fn fixed_case(s: Seq<char>) -> Seq<char> {
    if s.len() == 0 {
        s
    } else {
        upper_of(s[0]) + s.drop_first()
    }
}

/// The first character of `c`'s uppercase mapping is its own uppercase mapping.
pub open spec fn upper_settles(c: char) -> bool {
    upper_of(c).len() > 0 && upper_of(upper_of(c)[0]) == seq![upper_of(c)[0]]
}

/// Fixing the case of an already fixed title changes nothing, where the uppercase
/// mapping of the title's first character starts with an upper-case character.
pub proof fn lemma_fix_case_idempotent(s: Seq<char>)
    requires
        s.len() > 0 ==> upper_settles(s[0]),
    ensures
        fixed_case(fixed_case(s)) == fixed_case(s),
{
    if s.len() > 0 {
        let u = upper_of(s[0]);
        let f = u + s.drop_first();
        assert(f[0] == u[0]);
        assert(f.drop_first() =~= u.drop_first() + s.drop_first());
        assert(seq![u[0]] + u.drop_first() =~= u);
        assert(fixed_case(f) =~= f);
    }
}

/// Returns `s` with its first character upper-cased and the others left as they are.
pub fn fix_case(s: &str) -> (r: String)
    ensures
        r@ == fixed_case(s@),
{
    let n = s.unicode_len();
    if n == 0 {
        return String::new();
    }
    let mut r = char_upper(s.get_char(0));
    r.append(s.substring_char(1, n));
    r
}

/// The view of an optional string.
pub open spec fn opt_view(o: Option<String>) -> Option<Seq<char>> {
    match o {
        Some(s) => Some(s@),
        None => None,
    }
}

/// Two optional strings hold the same text, or are both absent.
pub fn same_text(a: &Option<String>, b: &Option<String>) -> (r: bool)
    ensures
        r == (opt_view(*a) == opt_view(*b)),
{
    match (a, b) {
        (Some(x), Some(y)) => *x == *y,
        (None, None) => true,
        _ => false,
    }
}

/// A reminder record.
///
/// `id` is present once the store has assigned one; it is absent in create requests.
#[derive(Debug, Clone)]
pub struct Reminder {
    pub id: Option<String>,
    pub title: String,
    pub due: u64,
    pub priority: u64,
    pub assignee: Option<String>,
}

/// The mathematical value of a reminder.
pub struct ReminderView {
    pub id: Option<Seq<char>>,
    pub title: Seq<char>,
    pub due: u64,
    pub priority: u64,
    pub assignee: Option<Seq<char>>,
}

impl View for Reminder {
    type V = ReminderView;

    open spec fn view(&self) -> ReminderView {
        ReminderView {
            id: opt_view(self.id),
            title: self.title@,
            due: self.due,
            priority: self.priority,
            assignee: opt_view(self.assignee),
        }
    }
}

/// The members of a reminder's JSON object, in order: `id` only when present.
pub open spec fn members(r: ReminderView) -> Seq<(Seq<char>, Seq<char>)> {
    let rest = seq![
        ("title"@, json_quoted(r.title)),
        ("due"@, decimal(r.due as nat)),
        ("priority"@, decimal(r.priority as nat)),
        (
            "assignee"@,
            match r.assignee {
                Some(a) => json_quoted(a),
                None => null_text(),
            },
        ),
    ];
    match r.id {
        Some(id) => seq![("id"@, json_quoted(id))] + rest,
        None => rest,
    }
}

/// The JSON text of a reminder.
pub open spec fn reminder_json(r: ReminderView) -> Seq<char> {
    object_text(members(r))
}

/// The keys of a reminder's JSON object, in order.
pub open spec fn member_keys(r: ReminderView) -> Seq<Seq<char>> {
    members(r).map_values(|m: (Seq<char>, Seq<char>)| m.0)
}

/// A reminder without an id has no `id` member in its JSON text; one with an id
/// has it first, holding the id as a JSON string.
pub proof fn lemma_id_member(r: ReminderView)
    ensures
        r.id is None ==> !member_keys(r).contains("id"@),
        r.id is None ==> member_keys(r) == seq!["title"@, "due"@, "priority"@, "assignee"@],
        r.id is Some ==> member_keys(r)[0] == "id"@ && members(r)[0].1 == json_quoted(
            r.id->Some_0,
        ),
        r.id is Some ==> member_keys(r).drop_first() == seq![
            "title"@,
            "due"@,
            "priority"@,
            "assignee"@,
        ],
{
    reveal_strlit("id");
    reveal_strlit("title");
    reveal_strlit("due");
    reveal_strlit("priority");
    reveal_strlit("assignee");
    let keys = member_keys(r);
    if r.id is None {
        assert(keys =~= seq!["title"@, "due"@, "priority"@, "assignee"@]);
        assert forall|i: int| 0 <= i < keys.len() implies keys[i] != "id"@ by {
            assert(keys[i].len() != "id"@.len());
        }
    } else {
        assert(keys.drop_first() =~= seq!["title"@, "due"@, "priority"@, "assignee"@]);
    }
}

impl Reminder {
    /// The JSON text of this reminder: `id` first when present and left out when
    /// absent, then `title`, `due`, `priority`, and `assignee` (`null` when absent).
    pub fn to_json(&self) -> (r: String)
        ensures
            r@ == reminder_json(self@),
    {
        let mut fields: Vec<(String, String)> = Vec::new();
        match &self.id {
            Some(id) => fields.push((String::from_str("id"), quote(id.as_str()))),
            None => {},
        }
        fields.push((String::from_str("title"), quote(self.title.as_str())));
        fields.push((String::from_str("due"), decimal_text(self.due)));
        fields.push((String::from_str("priority"), decimal_text(self.priority)));
        let assignee = match &self.assignee {
            Some(a) => quote(a.as_str()),
            None => String::from_str("null"),
        };
        fields.push((String::from_str("assignee"), assignee));
        proof {
            reveal_strlit("null");
            let k: int = if self.id is Some { 1 } else { 0 };
            assert(fields@.len() == k + 4);
            assert(members(self@).len() == k + 4);
            assert forall|i: int| 0 <= i < k + 4 implies pair_views(fields@)[i] == members(
                self@,
            )[i] by {
                if k == 1 && i == 0 {
                    assert(self@.id == Some(self.id->Some_0@));
                }
            }
            assert(pair_views(fields@) =~= members(self@));
        }
        write_object(&fields)
    }

    /// Whether two reminders are the same record: their ids agree.
    pub fn same_id(&self, other: &Reminder) -> (r: bool)
        ensures
            r == (self@.id == other@.id),
    {
        same_text(&self.id, &other.id)
    }

    /// Whether two reminders agree on every field, not only on `id`.
    pub fn identical(&self, other: &Reminder) -> (r: bool)
        ensures
            r == (self@ == other@),
    {
        same_text(&self.id, &other.id) && self.title == other.title && self.due == other.due
            && self.priority == other.priority && same_text(&self.assignee, &other.assignee)
    }
}

/// Reminders are equal when their ids are: a record's identity is its id.
impl PartialEq for Reminder {
    fn eq(&self, other: &Reminder) -> (r: bool) {
        same_text(&self.id, &other.id)
    }
}

impl vstd::std_specs::cmp::PartialEqSpecImpl for Reminder {
    open spec fn obeys_eq_spec() -> bool {
        true
    }

    open spec fn eq_spec(&self, other: &Reminder) -> bool {
        self@.id == other@.id
    }
}

} // verus!
