use vstd::prelude::*;

use crate::json::{
    entry_lookup, get_entry, lemma_lookup_first, lemma_lookup_found, opt_str_view, Json, JsonNumber,
};

verus! {

/// Width and height of a picture or video, as far as they are known.
#[derive(Clone, Copy, Debug, PartialEq, Eq, Structural)]
pub struct Size {
    pub width: Option<u64>,
    pub height: Option<u64>,
}

/// A profile found by a search.
#[derive(Debug, PartialEq)]
pub struct User {
    pub id: Option<String>,
    pub username: Option<String>,
    pub full_name: Option<String>,
    pub is_private: Option<bool>,
    pub is_verified: Option<bool>,
    pub profile_picture_url: Option<String>,
}

/// The characters of the fields of a [`User`].
pub struct UserView {
    pub id: Option<Seq<char>>,
    pub username: Option<Seq<char>>,
    pub full_name: Option<Seq<char>>,
    pub is_private: Option<bool>,
    pub is_verified: Option<bool>,
    pub profile_picture_url: Option<Seq<char>>,
}

impl View for User {
    type V = UserView;

    open spec fn view(&self) -> UserView {
        UserView {
            id: opt_str_view(self.id),
            username: opt_str_view(self.username),
            full_name: opt_str_view(self.full_name),
            is_private: self.is_private,
            is_verified: self.is_verified,
            profile_picture_url: opt_str_view(self.profile_picture_url),
        }
    }
}

// How a document fills a field of type `Option<T>` of a record read from it:
// a missing member or `null` gives `None`, a value of type `T` gives `Some`,
// anything else makes the whole record unreadable (the outer `None`).

/// A field of type `Option<String>`, from the value given for it.
pub open spec fn opt_string_from(v: Json) -> Option<Option<Seq<char>>> {
    match v {
        Json::Null => Some(None),
        Json::Str(s) => Some(Some(s@)),
        _ => None,
    }
}

/// A field of type `Option<bool>`, from the value given for it.
pub open spec fn opt_bool_from(v: Json) -> Option<Option<bool>> {
    match v {
        Json::Null => Some(None),
        Json::Bool(b) => Some(Some(b)),
        _ => None,
    }
}

/// A field of type `Option<u64>`, from the value given for it: only a
/// non-negative integer is a `u64`.
pub open spec fn opt_u64_from(v: Json) -> Option<Option<u64>> {
    match v {
        Json::Null => Some(None),
        Json::Number(JsonNumber::PosInt(n)) => Some(Some(n)),
        _ => None,
    }
}

/// The value given for a member of an object: `null` when it is missing.
pub open spec fn member(entries: Seq<(String, Json)>, key: Seq<char>) -> Json {
    match entry_lookup(entries, key) {
        Some(v) => v,
        None => Json::Null,
    }
}

/// A [`Size`] read from a document: an object whose `width` and `height`
/// members (other members are ignored), or an array whose two elements, are
/// each missing, `null` or a non-negative integer.
pub open spec fn size_from(v: Json) -> Option<Size> {
    let parts = match v {
        Json::Object(entries) => Some(
            (opt_u64_from(member(entries@, "width"@)), opt_u64_from(member(entries@, "height"@))),
        ),
        Json::Array(items) => if items@.len() == 2 {
            Some((opt_u64_from(items@[0]), opt_u64_from(items@[1])))
        } else {
            None
        },
        _ => None,
    };
    match parts {
        Some((Some(width), Some(height))) => Some(Size { width, height }),
        _ => None,
    }
}

/// A [`User`] read from a document: an object whose members `pk`,
/// `username`, `full_name` (strings), `is_private`, `is_verified` (booleans)
/// and `profile_pic_url` (a string) are each missing, `null` or of that type
/// (other members are ignored), or an array of six such values in that order.
pub open spec fn user_from(v: Json) -> Option<UserView> {
    let parts = match v {
        Json::Object(entries) => Some(
            (
                opt_string_from(member(entries@, "pk"@)),
                opt_string_from(member(entries@, "username"@)),
                opt_string_from(member(entries@, "full_name"@)),
                opt_bool_from(member(entries@, "is_private"@)),
                opt_bool_from(member(entries@, "is_verified"@)),
                opt_string_from(member(entries@, "profile_pic_url"@)),
            ),
        ),
        Json::Array(items) => if items@.len() == 6 {
            Some(
                (
                    opt_string_from(items@[0]),
                    opt_string_from(items@[1]),
                    opt_string_from(items@[2]),
                    opt_bool_from(items@[3]),
                    opt_bool_from(items@[4]),
                    opt_string_from(items@[5]),
                ),
            )
        } else {
            None
        },
        _ => None,
    };
    match parts {
        Some(
            (
                Some(id),
                Some(username),
                Some(full_name),
                Some(is_private),
                Some(is_verified),
                Some(profile_picture_url),
            ),
        ) => Some(
            UserView { id, username, full_name, is_private, is_verified, profile_picture_url },
        ),
        _ => None,
    }
}

/// The value given for a member is that of the first entry with its key,
/// and `null` when no entry has it.
pub proof fn lemma_member(entries: Seq<(String, Json)>, key: Seq<char>, i: int)
    ensures
        0 <= i < entries.len() && entries[i].0@ == key && (forall|j: int|
            0 <= j < i ==> #[trigger] entries[j].0@ != key) ==> member(entries, key)
            == entries[i].1,
        (forall|j: int| 0 <= j < entries.len() ==> #[trigger] entries[j].0@ != key) ==> member(
            entries,
            key,
        ) == Json::Null,
{
    if 0 <= i < entries.len() && entries[i].0@ == key && (forall|j: int|
        0 <= j < i ==> #[trigger] entries[j].0@ != key) {
        lemma_lookup_first(entries, key, i);
    }
    lemma_lookup_found(entries, key);
}

/// A value that is missing, `null` or of the type read from it.
pub open spec fn null_or(v: Json, fits: bool) -> bool {
    v is Null || fits
}

/// How a size is read. From an object: the width from its member named
/// `width` and the height from its member named `height`, each `None` when
/// missing or `null`; any other value there than a non-negative integer
/// leaves no size. From an array: it must have exactly two elements, the
/// width first. Anything else leaves no size.
pub proof fn lemma_size_from(v: Json)
    ensures
        v is Object ==> (size_from(v) is Some <==> null_or(
            v.field("width"@),
            v.field("width"@).u64_of() is Some,
        ) && null_or(v.field("height"@), v.field("height"@).u64_of() is Some)),
        v is Array ==> (size_from(v) is Some <==> v.array_of().unwrap().len() == 2 && null_or(
            v.item(0),
            v.item(0).u64_of() is Some,
        ) && null_or(v.item(1), v.item(1).u64_of() is Some)),
        v is Object && size_from(v) is Some ==> size_from(v) == Some(
            Size { width: v.field("width"@).u64_of(), height: v.field("height"@).u64_of() },
        ),
        v is Array && size_from(v) is Some ==> size_from(v) == Some(
            Size { width: v.item(0).u64_of(), height: v.item(1).u64_of() },
        ),
        !(v is Object) && !(v is Array) ==> size_from(v) is None,
{
}

/// How a user is read. From an object: its id from the member named `pk`,
/// and `username`, `full_name`, `is_private`, `is_verified` and
/// `profile_pic_url` from the members of those names, each `None` when
/// missing or `null`; a member of another type than its field's leaves no
/// user. From an array: exactly six elements in that order. Anything else
/// leaves no user.
pub proof fn lemma_user_from(v: Json)
    ensures
        v is Object ==> (user_from(v) is Some <==> {
            &&& null_or(v.field("pk"@), v.field("pk"@).str_of() is Some)
            &&& null_or(v.field("username"@), v.field("username"@).str_of() is Some)
            &&& null_or(v.field("full_name"@), v.field("full_name"@).str_of() is Some)
            &&& null_or(v.field("is_private"@), v.field("is_private"@).bool_of() is Some)
            &&& null_or(v.field("is_verified"@), v.field("is_verified"@).bool_of() is Some)
            &&& null_or(v.field("profile_pic_url"@), v.field("profile_pic_url"@).str_of() is Some)
        }),
        v is Object && user_from(v) is Some ==> user_from(v) == Some(
            UserView {
                id: v.field("pk"@).str_of(),
                username: v.field("username"@).str_of(),
                full_name: v.field("full_name"@).str_of(),
                is_private: v.field("is_private"@).bool_of(),
                is_verified: v.field("is_verified"@).bool_of(),
                profile_picture_url: v.field("profile_pic_url"@).str_of(),
            },
        ),
        v is Array ==> (user_from(v) is Some <==> {
            &&& v.array_of().unwrap().len() == 6
            &&& null_or(v.item(0), v.item(0).str_of() is Some)
            &&& null_or(v.item(1), v.item(1).str_of() is Some)
            &&& null_or(v.item(2), v.item(2).str_of() is Some)
            &&& null_or(v.item(3), v.item(3).bool_of() is Some)
            &&& null_or(v.item(4), v.item(4).bool_of() is Some)
            &&& null_or(v.item(5), v.item(5).str_of() is Some)
        }),
        v is Array && user_from(v) is Some ==> user_from(v) == Some(
            UserView {
                id: v.item(0).str_of(),
                username: v.item(1).str_of(),
                full_name: v.item(2).str_of(),
                is_private: v.item(3).bool_of(),
                is_verified: v.item(4).bool_of(),
                profile_picture_url: v.item(5).str_of(),
            },
        ),
        !(v is Object) && !(v is Array) ==> user_from(v) is None,
{
}

/// A field of type `Option<String>`, from the value given for it.
fn read_opt_string(v: &Json) -> (r: Option<Option<String>>)
    ensures
        match r {
            Some(o) => opt_string_from(*v) == Some(opt_str_view(o)),
            None => opt_string_from(*v) is None,
        },
{
    match v {
        Json::Null => Some(None),
        Json::Str(s) => Some(Some(s.clone())),
        _ => None,
    }
}

/// A field of type `Option<bool>`, from the value given for it.
fn read_opt_bool(v: &Json) -> (r: Option<Option<bool>>)
    ensures
        r == opt_bool_from(*v),
{
    match v {
        Json::Null => Some(None),
        Json::Bool(b) => Some(Some(*b)),
        _ => None,
    }
}

/// A field of type `Option<u64>`, from the value given for it.
fn read_opt_u64(v: &Json) -> (r: Option<Option<u64>>)
    ensures
        r == opt_u64_from(*v),
{
    match v {
        Json::Null => Some(None),
        Json::Number(JsonNumber::PosInt(n)) => Some(Some(*n)),
        _ => None,
    }
}

/// The value given for a member of an object (`null` when it is missing).
fn member_of<'a>(entries: &'a Vec<(String, Json)>, key: &str) -> (r: &'a Json)
    ensures
        *r == member(entries@, key@),
{
    match get_entry(entries, key) {
        Some(v) => v,
        None => &Json::Null,
    }
}

impl Size {
    /// Reads a size out of a document.
    pub fn from_json(v: &Json) -> (r: Option<Size>)
        ensures
            r == size_from(*v),
    {
        let (w, h) = match v {
            Json::Object(entries) => (
                read_opt_u64(member_of(entries, "width")),
                read_opt_u64(member_of(entries, "height")),
            ),
            Json::Array(items) => {
                if items.len() != 2 {
                    return None;
                }
                (read_opt_u64(&items[0]), read_opt_u64(&items[1]))
            },
            _ => return None,
        };
        match (w, h) {
            (Some(width), Some(height)) => Some(Size { width, height }),
            _ => None,
        }
    }
}

impl User {
    /// Reads a user out of a document.
    pub fn from_json(v: &Json) -> (r: Option<User>)
        ensures
            match r {
                Some(u) => user_from(*v) == Some(u@),
                None => user_from(*v) is None,
            },
    {
        let (a, b, c, d, e, f) = match v {
            Json::Object(entries) => (
                read_opt_string(member_of(entries, "pk")),
                read_opt_string(member_of(entries, "username")),
                read_opt_string(member_of(entries, "full_name")),
                read_opt_bool(member_of(entries, "is_private")),
                read_opt_bool(member_of(entries, "is_verified")),
                read_opt_string(member_of(entries, "profile_pic_url")),
            ),
            Json::Array(items) => {
                if items.len() != 6 {
                    return None;
                }
                (
                    read_opt_string(&items[0]),
                    read_opt_string(&items[1]),
                    read_opt_string(&items[2]),
                    read_opt_bool(&items[3]),
                    read_opt_bool(&items[4]),
                    read_opt_string(&items[5]),
                )
            },
            _ => return None,
        };
        match (a, b, c, d, e, f) {
            (
                Some(id),
                Some(username),
                Some(full_name),
                Some(is_private),
                Some(is_verified),
                Some(profile_picture_url),
            ) => Some(User { id, username, full_name, is_private, is_verified, profile_picture_url }),
            _ => None,
        }
    }
}

} // verus!
