//! The user service: one fixed record for the signed-in user, and stand-in
//! records for every other key.

use vstd::prelude::*;

verus! {

/// The address that the user service listens on.
pub const BIND_ADDRESS: &'static str = "0.0.0.0:4001";

/// A user as the service hands it out.
#[derive(Debug, Clone, PartialEq, Eq)]
pub struct User {
    pub id: String,
    pub username: String,
}

/// What a [`User`] stands for in contracts.
pub struct UserView {
    pub id: Seq<char>,
    pub username: Seq<char>,
}

impl View for User {
    type V = UserView;

    open spec fn view(&self) -> UserView {
        UserView { id: self.id@, username: self.username@ }
    }
}

/// The text that the standard library's `Debug` formatting of a string slice
/// with the characters `text` writes: the text between double quotes, with
/// the characters that need it escaped.
pub uninterp spec fn str_debug(text: Seq<char>) -> Seq<char>;

/// The text that `Debug` formatting writes for a graph identifier that wraps
/// `id`: the type's name, and the wrapped string's own rendering in brackets.
pub open spec fn id_debug(id: Seq<char>) -> Seq<char> {
    "ID("@ + str_debug(id) + ")"@
}

/// The record of the signed-in user.
pub open spec fn me_view() -> UserView {
    UserView { id: "1234"@, username: "Me"@ }
}

/// A stand-in record for a key that was rendered as `label`.
pub open spec fn placeholder_view(id: Seq<char>, label: Seq<char>) -> UserView {
    UserView { id, username: "User "@ + label }
}

/// The record that a lookup by `id` answers with.
pub open spec fn user_for_id(id: Seq<char>) -> UserView {
    if id == "1234"@ {
        UserView { id, username: "Me"@ }
    } else {
        placeholder_view(id, id_debug(id))
    }
}

/// The record that a lookup by `uname` answers with. Its identifier is that
/// of the signed-in user whatever name was asked for.
pub open spec fn user_for_username(uname: Seq<char>) -> UserView {
    if uname == "me"@ {
        me_view()
    } else {
        placeholder_view("1234"@, str_debug(uname))
    }
}

/// Trusted: formats `text` with the standard library's `Debug` impl for
/// `str`. The result is a function of the characters alone, so the contract
/// gives it the name `str_debug` and says nothing else of it.
#[verifier::external_body]
fn debug_str(text: &str) -> (rendered: String)
    ensures
        rendered@ == str_debug(text@),
{
    format!("{:?}", text)
}

/// Trusted: formats an `async_graphql::ID` that wraps a copy of `id` with the
/// `Debug` impl that the type derives. For a tuple struct of one field that
/// impl writes the name `ID`, an opening bracket, the field's own `Debug`
/// rendering and a closing bracket.
#[verifier::external_body]
fn debug_id(id: &str) -> (rendered: String)
    ensures
        rendered@ == id_debug(id@),
{
    format!("{:?}", async_graphql::ID(id.to_owned()))
}

/// Whether `text` reads exactly as `expected`.
fn reads_as(text: &String, expected: &str) -> (same: bool)
    ensures
        same == (text@ == expected@),
{
    let wanted = expected.to_string();
    *text == wanted
}

impl User {
    /// A stand-in record under `id`, named after `label`: `"User "` followed
    /// by the label.
    pub fn placeholder(id: String, label: &str) -> (user: User)
        ensures
            user@ == placeholder_view(id@, label@),
    {
        let mut username = "User ".to_string();
        username.append(label);
        User { id, username }
    }
}

/// The root of the user service's queries.
pub struct Query;

impl Query {
    /// The signed-in user: always the same record.
    pub fn me(&self) -> (user: User)
        ensures
            user@ == me_view(),
    {
        User { id: "1234".to_string(), username: "Me".to_string() }
    }

    /// The user with the identifier `id`. The identifier `"1234"` is the
    /// signed-in user; every other one gets a stand-in record that keeps the
    /// identifier and is named after its `Debug` rendering.
    pub fn find_user_by_id(&self, id: String) -> (user: User)
        ensures
            user@ == user_for_id(id@),
            user.id@ == id@,
    {
        if reads_as(&id, "1234") {
            User { id, username: "Me".to_string() }
        } else {
            let label = debug_id(id.as_str());
            User::placeholder(id, label.as_str())
        }
    }

    /// The user with the name `uname`. The name `"me"` is the signed-in user;
    /// every other one gets a stand-in record named after the `Debug`
    /// rendering of `uname`. The identifier is `"1234"` in both cases.
    pub fn find_user_by_username(&self, uname: String) -> (user: User)
        ensures
            user@ == user_for_username(uname@),
            user.id@ == "1234"@,
    {
        if reads_as(&uname, "me") {
            self.me()
        } else {
            let label = debug_str(uname.as_str());
            User::placeholder("1234".to_string(), label.as_str())
        }
    }
}

/// Two answers of `me`, from whichever roots, are the same record.
pub proof fn me_is_constant(first_root: Query, second_root: Query, first: User, second: User)
    requires
        call_ensures(Query::me, (&first_root,), first),
        call_ensures(Query::me, (&second_root,), second),
    ensures
        first@ == second@,
        first@ == me_view(),
{
}

/// A lookup by the identifier `"1234"` is named `"Me"`. A lookup by any other
/// identifier keeps the identifier, and its name is `"User "` followed by the
/// identifier's rendering, which holds the string's own rendering between
/// `ID(` and `)`.
pub proof fn id_lookup_renders_the_identifier(id: Seq<char>)
    ensures
        user_for_id(id).id == id,
        id == "1234"@ ==> user_for_id(id).username == "Me"@,
        id != "1234"@ ==> user_for_id(id).username == "User ID("@ + str_debug(id) + ")"@,
        id != "1234"@ ==> id_debug(id).is_suffix_of(user_for_id(id).username),
{
    reveal_strlit("User ");
    reveal_strlit("ID(");
    reveal_strlit("User ID(");
    let head = "User "@;
    let label = id_debug(id);
    assert("User ID("@ =~= head + "ID("@);
    assert(head + label =~= "User ID("@ + str_debug(id) + ")"@);
    assert((head + label).skip((head + label).len() - label.len()) =~= label);
}

/// A lookup by name answers under the identifier `"1234"` whatever the name
/// is. The name `"me"` is answered with the signed-in user; any other name
/// with `"User "` followed by the name's rendering.
pub proof fn username_lookup_keeps_one_identifier(uname: Seq<char>)
    ensures
        user_for_username(uname).id == "1234"@,
        uname == "me"@ ==> user_for_username(uname) == me_view(),
        uname != "me"@ ==> user_for_username(uname).username == "User "@ + str_debug(uname),
        uname != "me"@ ==> str_debug(uname).is_suffix_of(user_for_username(uname).username),
{
    let head = "User "@;
    let label = str_debug(uname);
    assert((head + label).skip((head + label).len() - label.len()) =~= label);
}

} // verus!
