use vstd::prelude::*;

verus! {

broadcast use vstd::std_specs::vec::group_vec_axioms;

/// A JSON value as the protocol logic reads and writes it.
///
/// Integers are held exactly; any other number is kept as its decimal text.
/// An object keeps its members in order.
#[derive(Debug, PartialEq, Eq)]
pub enum Json {
    Null,
    Bool(bool),
    Int(i128),
    Float(String),
    Str(String),
    Array(Vec<Json>),
    Object(Vec<(String, Json)>),
}

/// The mathematical value of a [`Json`]; an object is seen as its member names and,
/// at the same indices, their values.
pub enum JsonView {
    Null,
    Bool(bool),
    Int(int),
    Float(Seq<char>),
    Str(Seq<char>),
    Array(Seq<JsonView>),
    Object(Seq<Seq<char>>, Seq<JsonView>),
}

impl View for Json {
    type V = JsonView;

    open spec fn view(&self) -> JsonView
        decreases self,
    {
        match self {
            Json::Null => JsonView::Null,
            Json::Bool(b) => JsonView::Bool(*b),
            Json::Int(n) => JsonView::Int(*n as int),
            Json::Float(s) => JsonView::Float(s@),
            Json::Str(s) => JsonView::Str(s@),
            Json::Array(v) => JsonView::Array(
                Seq::new(v@.len(), |i: int| if 0 <= i < v@.len() { v@[i].view() } else { JsonView::Null }),
            ),
            Json::Object(v) => JsonView::Object(
                Seq::new(v@.len(), |i: int| v@[i].0@),
                Seq::new(v@.len(), |i: int| if 0 <= i < v@.len() { v@[i].1.view() } else { JsonView::Null }),
            ),
        }
    }
}

} // verus!

verus! {

/// The value of the first member of `fields` at or after index `i` whose name is `key`.
pub open spec fn find_member(fields: Seq<(String, Json)>, key: Seq<char>, i: int) -> Option<Json>
    decreases fields.len() - i,
{
    if i < 0 || i >= fields.len() {
        None
    } else if fields[i].0@ == key {
        Some(fields[i].1)
    } else {
        find_member(fields, key, i + 1)
    }
}

/// The value of the member named `key` of an object (the first one, should the name repeat);
/// `None` for a missing member or a value that is not an object.
pub open spec fn member(j: Json, key: Seq<char>) -> Option<Json> {
    match j {
        Json::Object(fields) => find_member(fields@, key, 0),
        _ => None,
    }
}

/// Whether a member is missing or `null`.
pub open spec fn absent_or_null(v: Option<Json>) -> bool {
    v is None || v == Some(Json::Null)
}

/// A member that may be missing or `null`, and otherwise holds a string.
pub open spec fn optional_text(v: Option<Json>) -> Option<Option<String>> {
    match v {
        None => Some(None),
        Some(Json::Null) => Some(None),
        Some(Json::Str(s)) => Some(Some(s)),
        _ => None,
    }
}

/// A member that holds a string.
pub open spec fn required_text(v: Option<Json>) -> Option<String> {
    match v {
        Some(Json::Str(s)) => Some(s),
        _ => None,
    }
}

/// A member that holds an integer that fits in `usize`.
pub open spec fn required_usize(v: Option<Json>) -> Option<usize> {
    match v {
        Some(Json::Int(n)) => if 0 <= n <= usize::MAX {
            Some(n as usize)
        } else {
            None
        },
        _ => None,
    }
}

/// Whether a string equals a literal.
pub fn text_is(s: &String, lit: &str) -> (r: bool)
    ensures
        r == (s@ == lit@),
{
    let l = lit.to_owned();
    s.eq(&l)
}

impl Json {
    /// The member named `key`, when `self` is an object that has one.
    pub fn get(&self, key: &str) -> (r: Option<&Json>)
        ensures
            r matches Some(v) ==> member(*self, key@) == Some(*v),
            r is None ==> member(*self, key@) is None,
    {
        match self {
            Json::Object(fields) => {
                let mut i: usize = 0;
                while i < fields.len()
                    invariant
                        0 <= i <= fields@.len(),
                        member(*self, key@) == find_member(fields@, key@, i as int),
                    decreases fields@.len() - i,
                {
                    let ghost before = i as int;
                    if text_is(&fields[i].0, key) {
                        assert(find_member(fields@, key@, before) == Some(fields@[before].1));
                        return Some(&fields[i].1);
                    }
                    i = i + 1;
                    assert(find_member(fields@, key@, before) == find_member(fields@, key@, before + 1));
                }
                None
            },
            _ => None,
        }
    }
}

/// A member that may be missing or `null`, and otherwise holds a string.
pub fn get_optional_text(j: &Json, key: &str) -> (r: Option<Option<String>>)
    ensures
        r == optional_text(member(*j, key@)),
{
    match j.get(key) {
        None => Some(None),
        Some(Json::Null) => Some(None),
        Some(Json::Str(s)) => Some(Some(s.clone())),
        _ => None,
    }
}

/// A member that holds a string.
pub fn get_text(j: &Json, key: &str) -> (r: Option<String>)
    ensures
        r == required_text(member(*j, key@)),
{
    match j.get(key) {
        Some(Json::Str(s)) => Some(s.clone()),
        _ => None,
    }
}

/// A member that holds an integer that fits in `usize`.
pub fn get_usize(j: &Json, key: &str) -> (r: Option<usize>)
    ensures
        r == required_usize(member(*j, key@)),
{
    match j.get(key) {
        Some(Json::Int(n)) => if 0 <= *n && *n <= usize::MAX as i128 {
            Some(*n as usize)
        } else {
            None
        },
        _ => None,
    }
}

/// Whether a member is missing or `null`.
pub fn is_absent_or_null(j: &Json, key: &str) -> (r: bool)
    ensures
        r == absent_or_null(member(*j, key@)),
{
    match j.get(key) {
        None => true,
        Some(Json::Null) => true,
        _ => false,
    }
}

/// A string value.
pub fn text(s: &str) -> (r: Json)
    ensures
        r@ == JsonView::Str(s@),
{
    Json::Str(s.to_owned())
}

} // verus!

verus! {

/// The view of the members of an object, as (name, value) pairs.
pub open spec fn members_view(fields: Seq<(String, Json)>) -> Seq<(Seq<char>, JsonView)> {
    Seq::new(fields.len(), |i: int| (fields[i].0@, fields[i].1@))
}

/// The object whose members are the given (name, value) pairs, in order.
pub open spec fn object_view(members: Seq<(Seq<char>, JsonView)>) -> JsonView {
    JsonView::Object(
        Seq::new(members.len(), |i: int| members[i].0),
        Seq::new(members.len(), |i: int| members[i].1),
    )
}

/// An object with the given members, in order.
pub fn object(fields: Vec<(String, Json)>) -> (r: Json)
    ensures
        r@ == object_view(members_view(fields@)),
{
    let ghost s = fields@;
    let r = Json::Object(fields);
    proof {
        let (k, m) = match r@ {
            JsonView::Object(k, m) => (k, m),
            _ => (Seq::empty(), Seq::empty()),
        };
        let o = members_view(s);
        assert(k =~= Seq::new(o.len(), |i: int| o[i].0));
        assert(m =~= Seq::new(o.len(), |i: int| o[i].1));
    }
    r
}

/// An integer value.
pub fn int_value(n: i128) -> (r: Json)
    ensures
        r@ == JsonView::Int(n as int),
{
    Json::Int(n)
}

/// A member name.
pub fn text_key(s: &str) -> (r: String)
    ensures
        r@ == s@,
{
    s.to_owned()
}

} // verus!

verus! {

pub open spec fn array_view(items: Seq<JsonView>) -> JsonView {
    JsonView::Array(items)
}

/// `null` for a missing text, a string otherwise.
pub open spec fn optional_text_view(s: Option<String>) -> JsonView {
    match s {
        Some(s) => JsonView::Str(s@),
        None => JsonView::Null,
    }
}

pub fn optional_text_json(s: &Option<String>) -> (r: Json)
    ensures
        r@ == optional_text_view(*s),
{
    match s {
        Some(s) => Json::Str(s.clone()),
        None => Json::Null,
    }
}

/// An array of the given values, in order.
pub fn array(items: Vec<Json>) -> (r: Json)
    ensures
        r@ == array_view(Seq::new(items@.len(), |i: int| items@[i]@)),
{
    let ghost s = items@;
    let r = Json::Array(items);
    proof {
        let m = match r@ {
            JsonView::Array(m) => m,
            _ => Seq::empty(),
        };
        assert(m =~= Seq::new(s.len(), |i: int| s[i]@));
    }
    r
}

} // verus!


verus! {

/// The member named `key` of an object, taken out of it.
pub fn take_member(j: Json, key: &str) -> (r: Option<Json>)
    ensures
        r == member(j, key@),
{
    let ghost whole = j;
    match j {
        Json::Object(members) => {
            let mut fields = members;
            let mut i: usize = 0;
            while i < fields.len()
                invariant
                    0 <= i <= fields@.len(),
                    member(whole, key@) == find_member(fields@, key@, i as int),
                    whole == j,
                decreases fields@.len() - i,
            {
                let ghost before = i as int;
                if text_is(&fields[i].0, key) {
                    assert(find_member(fields@, key@, before) == Some(fields@[before].1));
                    let ghost found = fields@[before].1;
                    assert(member(whole, key@) == Some(found));
                    let (_, v) = fields.swap_remove(i);
                    assert(v == found);
                    return Some(v);
                }
                i = i + 1;
                assert(find_member(fields@, key@, before) == find_member(fields@, key@, before + 1));
            }
            None
        },
        _ => None,
    }
}

} // verus!
