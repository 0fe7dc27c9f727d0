//! The built-in OPC UA values that the session services read and carry.

use vstd::prelude::*;

verus! {

/// Specifies the reflexive `From` of the standard library, by which every type
/// converts into itself: it hands its argument back.
pub assume_specification<Item>[ <Item as std::convert::From<Item>>::from ](t: Item) -> (ret: Item)
    ensures
        ret == t,
;

/// A string that may be null. Null and empty are different values.
#[derive(Debug)]
pub struct UAString {
    pub value: Option<String>,
}

impl View for UAString {
    type V = Option<Seq<char>>;

    open spec fn view(&self) -> Option<Seq<char>> {
        match self.value {
            Some(text) => Some(text@),
            None => None,
        }
    }
}

/// The characters of a string, where null counts as no characters.
pub open spec fn chars_or_empty(text: Option<Seq<char>>) -> Seq<char> {
    match text {
        Some(chars) => chars,
        None => seq![],
    }
}

/// A string as it is shown to a reader.
pub open spec fn shown_text(text: Option<Seq<char>>) -> Seq<char> {
    match text {
        Some(chars) => chars,
        None => "[null]"@,
    }
}

impl UAString {
    /// The null string.
    pub fn null() -> (res: Self)
        ensures
            res@ == None::<Seq<char>>,
            res.value is None,
    {
        UAString { value: None }
    }

    /// A string that holds `text`.
    pub fn from_text(text: &str) -> (res: Self)
        ensures
            res@ == Some(text@),
    {
        UAString { value: Some(text.to_owned()) }
    }

    /// Whether the string is null or has no characters.
    pub fn is_empty(&self) -> (res: bool)
        ensures
            res == (chars_or_empty(self@).len() == 0),
    {
        match &self.value {
            Some(text) => text.as_str().is_empty(),
            None => true,
        }
    }

    /// The string as it is shown to a reader.
    pub fn shown(&self) -> (res: &str)
        ensures
            res@ == shown_text(self@),
    {
        match &self.value {
            Some(text) => text.as_str(),
            None => "[null]",
        }
    }

    /// The text; that of the null string is empty.
    pub fn as_text(&self) -> (res: &str)
        ensures
            res@ == chars_or_empty(self@),
    {
        match &self.value {
            Some(text) => text.as_str(),
            None => {
                proof {
                    reveal_strlit("");
                }
                assert(""@ =~= seq![]);
                ""
            },
        }
    }
}

impl Clone for UAString {
    fn clone(&self) -> (res: Self)
        ensures
            res@ == self@,
    {
        UAString {
            value: match &self.value {
                Some(text) => Some(text.clone()),
                None => None,
            },
        }
    }
}

impl From<String> for UAString {
    fn from(value: String) -> (res: Self) {
        UAString { value: Some(value) }
    }
}

impl vstd::std_specs::convert::FromSpecImpl<String> for UAString {
    open spec fn obeys_from_spec() -> bool {
        true
    }

    open spec fn from_spec(value: String) -> Self {
        UAString { value: Some(value) }
    }
}

impl From<&str> for UAString {
    fn from(value: &str) -> (res: Self)
        ensures
            res@ == Some(value@),
    {
        UAString::from_text(value)
    }
}

impl vstd::std_specs::convert::FromSpecImpl<&str> for UAString {
    open spec fn obeys_from_spec() -> bool {
        false
    }

    open spec fn from_spec(value: &str) -> Self {
        arbitrary()
    }
}

/// A sequence of bytes that may be null. Null and empty are different values.
#[derive(Debug)]
pub struct ByteString {
    pub value: Option<Vec<u8>>,
}

impl View for ByteString {
    type V = Option<Seq<u8>>;

    open spec fn view(&self) -> Option<Seq<u8>> {
        match self.value {
            Some(bytes) => Some(bytes@),
            None => None,
        }
    }
}

/// The bytes of a byte string, where null counts as no bytes.
pub open spec fn bytes_or_empty(bytes: Option<Seq<u8>>) -> Seq<u8> {
    match bytes {
        Some(held) => held,
        None => seq![],
    }
}

impl ByteString {
    /// The null byte string.
    pub fn null() -> (res: Self)
        ensures
            res@ == None::<Seq<u8>>,
            res.value is None,
    {
        ByteString { value: None }
    }

    /// A byte string that holds a copy of `bytes`.
    pub fn from_bytes(bytes: &[u8]) -> (res: Self)
        ensures
            res@ == Some(bytes@),
    {
        ByteString { value: Some(vstd::slice::slice_to_vec(bytes)) }
    }

    /// Whether the byte string is null or has no bytes.
    pub fn is_null_or_empty(&self) -> (res: bool)
        ensures
            res == (bytes_or_empty(self@).len() == 0),
    {
        match &self.value {
            Some(bytes) => bytes.len() == 0,
            None => true,
        }
    }

    /// The bytes; those of the null byte string are none.
    pub fn to_bytes(&self) -> (res: Vec<u8>)
        ensures
            res@ == bytes_or_empty(self@),
    {
        match &self.value {
            Some(bytes) => vstd::slice::slice_to_vec(bytes.as_slice()),
            None => Vec::new(),
        }
    }

    /// Whether both are null, or both hold the same bytes.
    pub fn same_as(&self, other: &ByteString) -> (res: bool)
        ensures
            res == (self@ == other@),
    {
        match (&self.value, &other.value) {
            (Some(left), Some(right)) => same_bytes(left.as_slice(), right.as_slice()),
            (None, None) => true,
            _ => false,
        }
    }
}

impl Clone for ByteString {
    fn clone(&self) -> (res: Self)
        ensures
            res@ == self@,
    {
        ByteString {
            value: match &self.value {
                Some(bytes) => Some(vstd::slice::slice_to_vec(bytes.as_slice())),
                None => None,
            },
        }
    }
}

/// Whether two slices hold the same bytes.
fn same_bytes(left: &[u8], right: &[u8]) -> (res: bool)
    ensures
        res == (left@ == right@),
{
    if left.len() != right.len() {
        return false;
    }
    let mut index: usize = 0;
    while index < left.len()
        invariant
            left@.len() == right@.len(),
            index <= left@.len(),
            forall|i: int| 0 <= i < index ==> left@[i] == right@[i],
        decreases left@.len() - index,
    {
        if left[index] != right[index] {
            return false;
        }
        index = index + 1;
    }
    assert(left@ =~= right@);
    true
}

/// What identifies a node within its namespace.
#[derive(Debug)]
pub enum Identifier {
    Numeric(u32),
    String(UAString),
    Guid([u8; 16]),
    ByteString(ByteString),
}

/// The value of an [`Identifier`].
pub enum IdentifierView {
    Numeric(u32),
    String(Option<Seq<char>>),
    Guid(Seq<u8>),
    ByteString(Option<Seq<u8>>),
}

impl View for Identifier {
    type V = IdentifierView;

    open spec fn view(&self) -> IdentifierView {
        match self {
            Identifier::Numeric(number) => IdentifierView::Numeric(*number),
            Identifier::String(text) => IdentifierView::String(text@),
            Identifier::Guid(guid) => IdentifierView::Guid(guid@),
            Identifier::ByteString(bytes) => IdentifierView::ByteString(bytes@),
        }
    }
}

impl Clone for Identifier {
    fn clone(&self) -> (res: Self)
        ensures
            res@ == self@,
    {
        match self {
            Identifier::Numeric(number) => Identifier::Numeric(*number),
            Identifier::String(text) => Identifier::String(text.clone()),
            Identifier::Guid(guid) => Identifier::Guid(*guid),
            Identifier::ByteString(bytes) => Identifier::ByteString(bytes.clone()),
        }
    }
}

/// The identifier of a node in a server's address space. Session ids and
/// authentication tokens are node ids.
#[derive(Debug)]
pub struct NodeId {
    pub namespace: u16,
    pub identifier: Identifier,
}

/// The value of a [`NodeId`].
pub struct NodeIdView {
    pub namespace: u16,
    pub identifier: IdentifierView,
}

impl View for NodeId {
    type V = NodeIdView;

    open spec fn view(&self) -> NodeIdView {
        NodeIdView { namespace: self.namespace, identifier: self.identifier@ }
    }
}

impl Clone for NodeId {
    fn clone(&self) -> (res: Self)
        ensures
            res@ == self@,
    {
        NodeId { namespace: self.namespace, identifier: self.identifier.clone() }
    }
}

/// A text with the locale that it is written in.
#[derive(Debug)]
pub struct LocalizedText {
    pub locale: UAString,
    pub text: UAString,
}

/// The value of a [`LocalizedText`].
pub struct LocalizedTextView {
    pub locale: Option<Seq<char>>,
    pub text: Option<Seq<char>>,
}

impl View for LocalizedText {
    type V = LocalizedTextView;

    open spec fn view(&self) -> LocalizedTextView {
        LocalizedTextView { locale: self.locale@, text: self.text@ }
    }
}

impl Clone for LocalizedText {
    fn clone(&self) -> (res: Self)
        ensures
            res@ == self@,
    {
        LocalizedText { locale: self.locale.clone(), text: self.text.clone() }
    }
}

} // verus!
