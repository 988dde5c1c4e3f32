//! Themes of cursors.
use vstd::prelude::*;
use crate::types::xcursor::{XCursor, XCursorData};

verus! {

/// A theme of cursors that the backend loaded: its handle, its name, the size
/// that it was loaded for and its cursors.
pub struct XCursorTheme {
    theme: usize,
    name: Vec<u8>,
    size: i32,
    cursors: Vec<XCursorData>,
}

/// Position of the first cursor named `name` among `cursors`, if there is
/// one.
pub open spec fn first_named(cursors: Seq<XCursorData>, name: Seq<u8>) -> Option<int> {
    if exists|i: int| 0 <= i < cursors.len() && (#[trigger] cursors[i]).name() == name {
        Some(
            choose|i: int|
                0 <= i < cursors.len() && (#[trigger] cursors[i]).name() == name && forall|j: int|
                    0 <= j < i ==> (#[trigger] cursors[j]).name() != name,
        )
    } else {
        None
    }
}

/// The name that the bytes `bytes` spell: the text that they encode, and the
/// empty text if they encode none.
pub open spec fn spelled(bytes: Seq<u8>) -> Seq<char> {
    if vstd::utf8::valid_utf8(bytes) {
        vstd::utf8::decode_utf8(bytes)
    } else {
        Seq::empty()
    }
}

/// Calls `std::str::from_utf8` and drops what the error says. The call
/// succeeds on the bytes that are valid UTF-8 and on no others, and the text
/// that comes back is the one that the bytes encode.
#[verifier::external_body]
fn from_utf8(bytes: &[u8]) -> (text: Option<&str>)
    ensures
        text is Some <==> vstd::utf8::valid_utf8(bytes@),
        text matches Some(s) ==> s@ == vstd::utf8::decode_utf8(bytes@),
{
    std::str::from_utf8(bytes).ok()
}

impl XCursorTheme {
    #[verifier::type_invariant]
    spec fn counted(&self) -> bool {
        self.theme != 0 && self.cursors@.len() <= u32::MAX
    }

    /// Handle of the theme.
    pub closed spec fn spec_to_ptr(&self) -> usize {
        self.theme
    }

    /// Name of the theme, as bytes.
    pub closed spec fn name_bytes(&self) -> Seq<u8> {
        self.name@
    }

    /// The size that the theme was loaded for.
    pub closed spec fn spec_size(&self) -> i32 {
        self.size
    }

    /// The cursors of the theme.
    pub closed spec fn spec_cursors(&self) -> Seq<XCursorData> {
        self.cursors@
    }

    /// Takes over the theme that the backend loaded.
    ///
    /// There is no theme if the backend loaded none and handed out the null
    /// handle, nor if there are more cursors than the backend can count,
    /// which is `u32::MAX`.
    pub fn load(theme: usize, name: Vec<u8>, size: i32, cursors: Vec<XCursorData>) -> (loaded:
        Option<XCursorTheme>)
        ensures
            loaded is Some <==> theme != 0 && cursors@.len() <= u32::MAX,
            loaded matches Some(t) ==> {
                &&& t.spec_to_ptr() == theme
                &&& t.name_bytes() == name@
                &&& t.spec_size() == size
                &&& t.spec_cursors() == cursors@
            },
    {
        if theme == 0 || cursors.len() > u32::MAX as usize {
            None
        } else {
            Some(XCursorTheme { theme, name, size, cursors })
        }
    }

    /// Handle of the theme, which is not null.
    pub fn to_ptr(&self) -> (theme: usize)
        ensures
            theme == self.spec_to_ptr(),
            theme != 0,
    {
        proof {
            use_type_invariant(self);
        }
        self.theme
    }

    /// The first cursor of the theme that is named `name`, if there is one.
    pub fn get_cursor<'theme>(&'theme self, name: String) -> (found: Option<XCursor<'theme>>)
        ensures
            found is Some <==> exists|i: int|
                0 <= i < self.spec_cursors().len() && (#[trigger] self.spec_cursors()[i]).name()
                    == vstd::utf8::encode_utf8(name@),
            found matches Some(cursor) ==> first_named(
                self.spec_cursors(),
                vstd::utf8::encode_utf8(name@),
            ) matches Some(i) && cursor@ == self.spec_cursors()[i],
    {
        let wanted = name.as_str().as_bytes();
        let mut i: usize = 0;
        while i < self.cursors.len()
            invariant
                i <= self.cursors.len(),
                wanted@ == vstd::utf8::encode_utf8(name@),
                forall|j: int| 0 <= j < i ==> (#[trigger] self.cursors@[j]).name() != wanted@,
            decreases self.cursors.len() - i,
        {
            if self.cursors[i].is_named(wanted) {
                proof {
                    let k = first_named(self.cursors@, wanted@)->0;
                    assert(self.cursors@[i as int].name() == wanted@);
                    assert(k == i);
                }
                return Some(XCursor::new(&self.cursors[i]));
            }
            i += 1;
        }
        None
    }

    /// Number of cursors in the theme.
    pub fn cursor_count(&self) -> (count: u32)
        ensures
            count == self.spec_cursors().len(),
    {
        proof {
            use_type_invariant(self);
        }
        self.cursors.len() as u32
    }

    /// Name of the theme: the text that its bytes encode, and the empty text
    /// if they are not valid UTF-8.
    pub fn name(&self) -> (name: String)
        ensures
            name@ == spelled(self.name_bytes()),
    {
        match from_utf8(self.name.as_slice()) {
            Some(text) => text.to_owned(),
            None => String::new(),
        }
    }

    /// The size that the theme was loaded for.
    pub fn size(&self) -> (size: i32)
        ensures
            size == self.spec_size(),
    {
        self.size
    }

    /// The cursors of the theme, in the order of the theme.
    pub fn cursors<'theme>(&'theme self) -> (cursors: Vec<XCursor<'theme>>)
        ensures
            cursors@.len() == self.spec_cursors().len(),
            forall|i: int|
                0 <= i < cursors@.len() ==> (#[trigger] cursors@[i])@ == self.spec_cursors()[i],
    {
        let mut cursors: Vec<XCursor<'theme>> = Vec::new();
        let mut i: usize = 0;
        while i < self.cursors.len()
            invariant
                i <= self.cursors.len(),
                cursors@.len() == i,
                forall|j: int| 0 <= j < i ==> (#[trigger] cursors@[j])@ == self.cursors@[j],
            decreases self.cursors.len() - i,
        {
            cursors.push(XCursor::new(&self.cursors[i]));
            i += 1;
        }
        cursors
    }
}

} // verus!
