//! A small document tree: the shape of what is sent to the backend, before
//! any wire encoding.

use vstd::prelude::*;
use vstd::string::StringExecFns;

verus! {

/// A node of a document.
#[derive(Debug, PartialEq, Eq)]
pub enum Json {
    /// A truth value.
    Bool(bool),
    /// A whole number.
    Integer(i64),
    /// A single-precision number, carried as its IEEE-754 bit pattern.
    Real(u32),
    /// A text.
    Text(String),
    /// A record: named members, in the order they were added.
    Object(Vec<Member>),
}

/// A named member of a record.
#[derive(Debug, PartialEq, Eq)]
pub struct Member {
    pub name: String,
    pub value: Json,
}

/// The mathematical content of a [`Json`] node.
pub enum JsonView {
    Bool(bool),
    Integer(int),
    Real(u32),
    Text(Seq<char>),
    Object(Seq<(Seq<char>, JsonView)>),
}

impl View for Json {
    type V = JsonView;

    open spec fn view(&self) -> JsonView
        decreases self,
    {
        match self {
            Json::Bool(b) => JsonView::Bool(*b),
            Json::Integer(i) => JsonView::Integer(*i as int),
            Json::Real(bits) => JsonView::Real(*bits),
            Json::Text(s) => JsonView::Text(s@),
            Json::Object(members) => JsonView::Object(
                Seq::new(
                    members@.len(),
                    |i: int|
                        if 0 <= i < members@.len() {
                            (members@[i].name@, members@[i].value.view())
                        } else {
                            (Seq::empty(), JsonView::Bool(false))
                        },
                ),
            ),
        }
    }
}

/// The mathematical content of the members of a record: names and values,
/// in order.
pub type MembersView = Seq<(Seq<char>, JsonView)>;

/// The views of a run of members, in order.
pub open spec fn members_view(members: Seq<Member>) -> MembersView {
    Seq::new(members.len(), |i: int| (members[i].name@, members[i].value@))
}

/// A text member when `value` is present, nothing when it is absent.
pub open spec fn optional_text(name: Seq<char>, value: Option<String>) -> MembersView {
    match value {
        Some(s) => seq![(name, JsonView::Text(s@))],
        None => seq![],
    }
}

/// A whole-number member when `value` is present, nothing when it is absent.
pub open spec fn optional_integer(name: Seq<char>, value: Option<i64>) -> MembersView {
    match value {
        Some(i) => seq![(name, JsonView::Integer(i as int))],
        None => seq![],
    }
}

/// A record is viewed as the views of its members.
pub proof fn lemma_object_view(members: Vec<Member>)
    ensures
        Json::Object(members)@ == JsonView::Object(members_view(members@)),
{
    let j = Json::Object(members);
    reveal_with_fuel(<Json as View>::view, 2);
    assert(j@->Object_0 =~= members_view(members@));
}

/// A record with the given members.
pub fn object(members: Vec<Member>) -> (j: Json)
    ensures
        j@ == JsonView::Object(members_view(members@)),
{
    proof {
        lemma_object_view(members);
    }
    Json::Object(members)
}

/// A text node holding a copy of `s`.
pub fn text(s: &str) -> (j: Json)
    ensures
        j@ == JsonView::Text(s@),
{
    Json::Text(String::from_str(s))
}

/// An empty run of members, to be filled.
pub fn no_members() -> (members: Vec<Member>)
    ensures
        members_view(members@) == MembersView::empty(),
{
    let members: Vec<Member> = Vec::new();
    members
}

/// Adds the member `name: value` at the end.
pub fn push_member(members: &mut Vec<Member>, name: &str, value: Json)
    ensures
        members_view(final(members)@) == members_view(old(members)@).push((name@, value@)),
{
    members.push(Member { name: String::from_str(name), value });
}

/// Adds the text member `name: value` at the end when `value` is present.
pub fn push_optional_text(members: &mut Vec<Member>, name: &str, value: Option<String>)
    ensures
        members_view(final(members)@) == members_view(old(members)@) + optional_text(
            name@,
            value,
        ),
{
    match value {
        Some(s) => {
            push_member(members, name, Json::Text(s));
            assert(members_view(members@) =~= members_view(old(members)@) + optional_text(
                name@,
                value,
            ));
        },
        None => {
            assert(members_view(members@) =~= members_view(old(members)@) + optional_text(
                name@,
                value,
            ));
        },
    }
}

/// Adds the whole-number member `name: value` at the end when `value` is
/// present.
pub fn push_optional_integer(members: &mut Vec<Member>, name: &str, value: Option<i64>)
    ensures
        members_view(final(members)@) == members_view(old(members)@) + optional_integer(
            name@,
            value,
        ),
{
    match value {
        Some(i) => {
            push_member(members, name, Json::Integer(i));
            assert(members_view(members@) =~= members_view(old(members)@) + optional_integer(
                name@,
                value,
            ));
        },
        None => {
            assert(members_view(members@) =~= members_view(old(members)@) + optional_integer(
                name@,
                value,
            ));
        },
    }
}

/// Whether some member is called `name`.
pub open spec fn has_name(members: MembersView, name: Seq<char>) -> bool {
    exists|i: int| 0 <= i < members.len() && (#[trigger] members[i]).0 == name
}

/// The names that occur among the members.
pub open spec fn names(members: MembersView) -> Set<Seq<char>> {
    Set::new(|name: Seq<char>| has_name(members, name))
}

/// Whether no two members share a name.
pub open spec fn names_differ(members: MembersView) -> bool {
    forall|i: int, j: int|
        0 <= i < j < members.len() ==> (#[trigger] members[i]).0 != (#[trigger] members[j]).0
}

/// Whether no record anywhere in the document has two members of the same
/// name, so that a member is found by its name alone.
pub open spec fn unambiguous(json: JsonView) -> bool
    decreases json,
{
    match json {
        JsonView::Object(members) => names_differ(members) && forall|i: int|
            0 <= i < members.len() ==> unambiguous((#[trigger] members[i]).1),
        _ => true,
    }
}

/// Whether every member's value is unambiguous.
pub open spec fn values_unambiguous(members: MembersView) -> bool {
    forall|i: int| 0 <= i < members.len() ==> unambiguous((#[trigger] members[i]).1)
}

/// Whether the members can make up an unambiguous record.
pub open spec fn tidy(members: MembersView) -> bool {
    names_differ(members) && values_unambiguous(members)
}

/// A record of tidy members is unambiguous.
pub proof fn lemma_record_unambiguous(members: MembersView)
    requires
        tidy(members),
    ensures
        unambiguous(JsonView::Object(members)),
{
}

/// The empty run is tidy and holds no name.
pub proof fn lemma_no_names()
    ensures
        tidy(MembersView::empty()),
        names(MembersView::empty()) == Set::<Seq<char>>::empty(),
{
    assert(names(MembersView::empty()) =~= Set::<Seq<char>>::empty());
}

/// Adding a member under a new name keeps the members tidy, and adds that
/// name and no other.
pub proof fn lemma_push_name(members: MembersView, name: Seq<char>, value: JsonView)
    requires
        tidy(members),
        !names(members).contains(name),
        unambiguous(value),
    ensures
        tidy(members.push((name, value))),
        names(members.push((name, value))) == names(members).insert(name),
{
    let longer = members.push((name, value));
    assert forall|i: int, j: int| 0 <= i < j < longer.len() implies (#[trigger] longer[i]).0 != (
    #[trigger] longer[j]).0 by {
        if j == members.len() {
            assert(longer[i] == members[i]);
        } else {
            assert(longer[i] == members[i]);
            assert(longer[j] == members[j]);
        }
    }
    assert forall|i: int| 0 <= i < longer.len() implies unambiguous((#[trigger] longer[i]).1) by {
        if i < members.len() {
            assert(longer[i] == members[i]);
        }
    }
    assert forall|other: Seq<char>|
        names(longer).contains(other) <==> names(members).insert(name).contains(other) by {
        if has_name(longer, other) {
            let i = choose|i: int| 0 <= i < longer.len() && (#[trigger] longer[i]).0 == other;
            if i < members.len() {
                assert(longer[i] == members[i]);
            }
        }
        if has_name(members, other) {
            let i = choose|i: int| 0 <= i < members.len() && (#[trigger] members[i]).0 == other;
            assert(longer[i] == members[i]);
        }
        if other == name {
            assert(longer[members.len() as int].0 == name);
        }
    }
    assert(names(longer) =~= names(members).insert(name));
}

/// Adding an optional text under a new name keeps the members tidy, and
/// adds that name when the text is present.
pub proof fn lemma_add_optional_text(members: MembersView, name: Seq<char>, value: Option<String>)
    requires
        tidy(members),
        !names(members).contains(name),
    ensures
        tidy(members + optional_text(name, value)),
        names(members + optional_text(name, value)) == if value is Some {
            names(members).insert(name)
        } else {
            names(members)
        },
{
    match value {
        Some(s) => {
            lemma_push_name(members, name, JsonView::Text(s@));
            assert(members + optional_text(name, value) =~= members.push(
                (name, JsonView::Text(s@)),
            ));
        },
        None => {
            assert(members + optional_text(name, value) =~= members);
        },
    }
}

/// Adding an optional whole number under a new name keeps the members
/// tidy, and adds that name when the number is present.
pub proof fn lemma_add_optional_integer(
    members: MembersView,
    name: Seq<char>,
    value: Option<i64>,
)
    requires
        tidy(members),
        !names(members).contains(name),
    ensures
        tidy(members + optional_integer(name, value)),
        names(members + optional_integer(name, value)) == if value is Some {
            names(members).insert(name)
        } else {
            names(members)
        },
{
    match value {
        Some(i) => {
            lemma_push_name(members, name, JsonView::Integer(i as int));
            assert(members + optional_integer(name, value) =~= members.push(
                (name, JsonView::Integer(i as int)),
            ));
        },
        None => {
            assert(members + optional_integer(name, value) =~= members);
        },
    }
}

} // verus!
