//! The untyped structured value that accompanies a call of a native
//! function, and the questions a handler asks of it while it checks that
//! the value has the shape it expects.

use vstd::prelude::*;
use vstd::string::StringExecFns;

verus! {

/// An untyped structured value: nothing, a truth value, a number, a text,
/// a list of values, or an object of named members.
#[derive(Debug, PartialEq, Eq)]
pub enum Payload {
    Null,
    Bool(bool),
    /// A number, kept in the notation in which it arrived.
    Number(String),
    Text(String),
    List(Vec<Payload>),
    Object(Vec<Member>),
}

/// A named member of an object.
#[derive(Debug, PartialEq, Eq)]
pub struct Member {
    pub key: String,
    pub value: Payload,
}

/// The value of the first member called `key`, if there is one.
pub open spec fn find_member(members: Seq<Member>, key: Seq<char>) -> Option<Payload>
    decreases members.len(),
{
    if members.len() == 0 {
        None
    } else if members[0].key@ == key {
        Some(members[0].value)
    } else {
        find_member(members.drop_first(), key)
    }
}

/// Whether every value of the list is a text.
pub open spec fn all_text(items: Seq<Payload>) -> bool {
    forall|i: int| 0 <= i < items.len() ==> (#[trigger] items[i]) is Text
}

/// The texts of a list of texts, in order.
pub open spec fn text_items(items: Seq<Payload>) -> Seq<Seq<char>> {
    Seq::new(items.len(), |i: int| items[i]->Text_0@)
}

impl Payload {
    /// The value of the member called `key`, where this value is an
    /// object that has one.
    pub open spec fn member(self, key: Seq<char>) -> Option<Payload> {
        match self {
            Payload::Object(members) => find_member(members@, key),
            _ => None,
        }
    }

    /// The text, where this value is one.
    pub open spec fn text(self) -> Option<Seq<char>> {
        match self {
            Payload::Text(text) => Some(text@),
            _ => None,
        }
    }

    /// The truth value, where this value is one.
    pub open spec fn flag(self) -> Option<bool> {
        match self {
            Payload::Bool(flag) => Some(flag),
            _ => None,
        }
    }

    /// The texts in order, where this value is a list of texts.
    pub open spec fn words(self) -> Option<Seq<Seq<char>>> {
        match self {
            Payload::List(items) => if all_text(items@) {
                Some(text_items(items@))
            } else {
                None
            },
            _ => None,
        }
    }

    /// Whether this value is an object.
    pub fn is_object(&self) -> (yes: bool)
        ensures
            yes == (self is Object),
    {
        match self {
            Payload::Object(_) => true,
            _ => false,
        }
    }

    /// Whether this value is nothing.
    pub fn is_null(&self) -> (yes: bool)
        ensures
            yes == (self is Null),
    {
        match self {
            Payload::Null => true,
            _ => false,
        }
    }

    /// Looks up the member called `key`. Of several members with that
    /// name the first counts.
    pub fn get(&self, key: &str) -> (found: Option<&Payload>)
        ensures
            match found {
                Some(value) => self.member(key@) == Some(*value),
                None => self.member(key@) is None,
            },
    {
        match self {
            Payload::Object(members) => {
                let wanted = String::from_str(key);
                let mut i: usize = 0;
                assert(members@.skip(0) =~= members@);
                while i < members.len()
                    invariant
                        i <= members.len(),
                        wanted@ == key@,
                        self.member(key@) == find_member(members@, key@),
                        find_member(members@, key@) == find_member(members@.skip(i as int), key@),
                    decreases members.len() - i,
                {
                    let ghost rest = members@.skip(i as int);
                    assert(rest[0] == members@[i as int]);
                    assert(rest.drop_first() =~= members@.skip(i + 1));
                    if members[i].key == wanted {
                        return Some(&members[i].value);
                    }
                    i = i + 1;
                }
                None
            },
            _ => None,
        }
    }

    /// The text, where this value is one.
    pub fn as_text(&self) -> (text: Option<&String>)
        ensures
            match text {
                Some(text) => self.text() == Some(text@),
                None => self.text() is None,
            },
    {
        match self {
            Payload::Text(text) => Some(text),
            _ => None,
        }
    }

    /// The truth value, where this value is one.
    pub fn as_bool(&self) -> (flag: Option<bool>)
        ensures
            flag == self.flag(),
    {
        match self {
            Payload::Bool(flag) => Some(*flag),
            _ => None,
        }
    }

    /// The texts in order, where this value is a list of texts.
    pub fn as_words(&self) -> (words: Option<Vec<String>>)
        ensures
            words.deep_view() == self.words(),
    {
        match self {
            Payload::List(items) => {
                let mut words: Vec<String> = Vec::new();
                let mut i: usize = 0;
                while i < items.len()
                    invariant
                        i <= items.len(),
                        words@.len() == i,
                        self.words() == if all_text(items@) {
                            Some(text_items(items@))
                        } else {
                            None
                        },
                        all_text(items@.take(i as int)),
                        words.deep_view() == text_items(items@.take(i as int)),
                    decreases items.len() - i,
                {
                    match &items[i] {
                        Payload::Text(text) => {
                            let ghost before = words;
                            words.push(text.clone());
                            proof {
                                let seen = items@.take(i + 1);
                                assert forall|j: int| 0 <= j < seen.len() implies (
                                #[trigger] seen[j]) is Text by {
                                    if j < i {
                                        assert(items@.take(i as int)[j] is Text);
                                    }
                                }
                                assert forall|j: int| 0 <= j < seen.len() implies words.deep_view()[j]
                                    == text_items(seen)[j] by {
                                    if j < i {
                                        assert(words@[j] == before@[j]);
                                        assert(before.deep_view()[j] == text_items(
                                            items@.take(i as int),
                                        )[j]);
                                    }
                                }
                                assert(words.deep_view() =~= text_items(seen));
                            }
                        },
                        _ => {
                            assert(!(items@[i as int] is Text));
                            assert(!all_text(items@));
                            return None;
                        },
                    }
                    i = i + 1;
                }
                assert(items@.take(items.len() as int) =~= items@);
                Some(words)
            },
            _ => None,
        }
    }
}

/// Why a payload does not have the shape that a handler expects.
#[derive(Debug, PartialEq, Eq)]
pub enum ShapeError {
    /// The payload is not an object.
    ExpectedObject,
    /// The object lacks the member of this name.
    MissingField(String),
    /// The member of this name holds a value of the wrong kind.
    InvalidField(String),
}

/// The mathematical content of a [`ShapeError`].
pub enum ShapeErrorView {
    ExpectedObject,
    MissingField(Seq<char>),
    InvalidField(Seq<char>),
}

impl ShapeErrorView {
    /// The sentence that describes the fault.
    pub open spec fn describe(self) -> Seq<char> {
        match self {
            ShapeErrorView::ExpectedObject => "expected an object"@,
            ShapeErrorView::MissingField(field) => "missing field `"@ + field + "`"@,
            ShapeErrorView::InvalidField(field) => "invalid value for field `"@ + field + "`"@,
        }
    }
}

impl DeepView for ShapeError {
    type V = ShapeErrorView;

    open spec fn deep_view(&self) -> ShapeErrorView {
        match self {
            ShapeError::ExpectedObject => ShapeErrorView::ExpectedObject,
            ShapeError::MissingField(field) => ShapeErrorView::MissingField(field@),
            ShapeError::InvalidField(field) => ShapeErrorView::InvalidField(field@),
        }
    }
}

impl View for ShapeError {
    type V = ShapeErrorView;

    open spec fn view(&self) -> ShapeErrorView {
        self.deep_view()
    }
}

impl ShapeError {
    /// The fault of an object that lacks the member called `field`.
    pub fn missing(field: &str) -> (error: ShapeError)
        ensures
            error@ == ShapeErrorView::MissingField(field@),
    {
        ShapeError::MissingField(String::from_str(field))
    }

    /// The fault of a member called `field` that holds the wrong kind of
    /// value.
    pub fn invalid(field: &str) -> (error: ShapeError)
        ensures
            error@ == ShapeErrorView::InvalidField(field@),
    {
        ShapeError::InvalidField(String::from_str(field))
    }

    /// The sentence that describes the fault.
    pub fn describe(&self) -> (text: String)
        ensures
            text@ == self@.describe(),
    {
        match self {
            ShapeError::ExpectedObject => String::from_str("expected an object"),
            ShapeError::MissingField(field) => {
                let mut text = String::from_str("missing field `");
                text.append(field.as_str());
                text.append("`");
                text
            },
            ShapeError::InvalidField(field) => {
                let mut text = String::from_str("invalid value for field `");
                text.append(field.as_str());
                text.append("`");
                text
            },
        }
    }
}

} // verus!
