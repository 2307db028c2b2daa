//! The request headers that the extractors read: names with their raw values, in the order
//! the request holds them.

use vstd::prelude::*;
use vstd::string::*;
use crate::foreign::{is_header_value_byte, is_visible_ascii, ascii_text, header_value_to_str};
use crate::text::{is_ascii_upper, is_lower_of, is_ascii_lowercase_of, equals_ascii_lowercase_of};

verus! {

/// One header: a lowercase name and the value's bytes.
pub struct HeaderEntry {
    name: String,
    value: Vec<u8>,
}

/// The headers of a request. Names hold no ASCII capitals (HTTP header names are
/// case-insensitive and kept in lowercase) and values hold only bytes that a header value
/// may hold.
pub struct RequestHeaders {
    entries: Vec<HeaderEntry>,
}

/// A name in the form headers are kept in: without ASCII capitals.
pub open spec fn is_lowercase_name(name: Seq<char>) -> bool {
    forall|i: int| 0 <= i < name.len() ==> !is_ascii_upper(#[trigger] name[i])
}

/// Bytes that a header value may hold.
pub open spec fn is_header_value(bytes: Seq<u8>) -> bool {
    forall|i: int| 0 <= i < bytes.len() ==> is_header_value_byte(#[trigger] bytes[i])
}

/// Bytes that read as text: visible ASCII and tabs.
pub open spec fn is_visible_text(bytes: Seq<u8>) -> bool {
    forall|i: int| 0 <= i < bytes.len() ==> is_visible_ascii(#[trigger] bytes[i])
}

/// The value of the first header whose name is `name` taken in ASCII lowercase.
pub open spec fn header_lookup(entries: Seq<(Seq<char>, Seq<u8>)>, name: Seq<char>) -> Option<Seq<u8>>
    decreases entries.len(),
{
    if entries.len() == 0 {
        None
    } else if is_ascii_lowercase_of(entries[0].0, name) {
        Some(entries[0].1)
    } else {
        header_lookup(entries.drop_first(), name)
    }
}

/// A header read as text: `None` if it is missing, `Some(None)` if its value is not visible
/// ASCII, and otherwise the text.
pub open spec fn header_text(entries: Seq<(Seq<char>, Seq<u8>)>, name: Seq<char>) -> Option<Option<Seq<char>>> {
    match header_lookup(entries, name) {
        None => None,
        Some(bytes) => if is_visible_text(bytes) {
            Some(Some(ascii_text(bytes)))
        } else {
            Some(None)
        },
    }
}

/// Two characters that are the same letter in either case, or the same character.
pub open spec fn chars_equal_ignoring_case(x: char, y: char) -> bool {
    ||| x == y
    ||| is_ascii_upper(x) && y as u32 == x as u32 + 32
    ||| is_ascii_upper(y) && x as u32 == y as u32 + 32
}

/// Two names that differ in ASCII case only.
pub open spec fn names_equal_ignoring_case(a: Seq<char>, b: Seq<char>) -> bool {
    &&& a.len() == b.len()
    &&& forall|i: int| 0 <= i < a.len() ==> chars_equal_ignoring_case(#[trigger] a[i], b[i])
}

/// Header names are case-insensitive: names that differ in ASCII case only find the same
/// header, in headers kept with lowercase names.
pub proof fn law_header_names_ignore_case(entries: Seq<(Seq<char>, Seq<u8>)>, a: Seq<char>, b: Seq<char>)
    requires
        names_equal_ignoring_case(a, b),
        forall|i: int| 0 <= i < entries.len() ==> is_lowercase_name(#[trigger] entries[i].0),
    ensures
        header_lookup(entries, a) == header_lookup(entries, b),
    decreases entries.len(),
{
    if entries.len() > 0 {
        let name = entries[0].0;
        assert(is_lowercase_name(name));
        assert(is_ascii_lowercase_of(name, a) == is_ascii_lowercase_of(name, b)) by {
            if name.len() == a.len() {
                assert forall|i: int| 0 <= i < a.len() implies
                    is_lower_of(#[trigger] name[i], a[i]) == is_lower_of(name[i], b[i]) by {
                    assert(chars_equal_ignoring_case(a[i], b[i]));
                    assert(!is_ascii_upper(name[i]));
                    let n = name[i];
                    vstd::utf8::char_u32_cast(n, n as u32);
                    vstd::utf8::char_u32_cast(a[i], a[i] as u32);
                    vstd::utf8::char_u32_cast(b[i], b[i] as u32);
                    assert((n as u32 == a[i] as u32) ==> n == a[i]);
                    assert((n as u32 == b[i] as u32) ==> n == b[i]);
                }
            }
        }
        let rest = entries.drop_first();
        assert forall|i: int| 0 <= i < rest.len() implies is_lowercase_name(#[trigger] rest[i].0) by {
            assert(rest[i] == entries[i + 1]);
        }
        law_header_names_ignore_case(rest, a, b);
    }
}

impl View for RequestHeaders {
    type V = Seq<(Seq<char>, Seq<u8>)>;

    closed spec fn view(&self) -> Seq<(Seq<char>, Seq<u8>)> {
        self.entries@.map_values(|e: HeaderEntry| (e.name@, e.value@))
    }
}

impl RequestHeaders {
    #[verifier::type_invariant]
    closed spec fn well_formed(self) -> bool {
        forall|i: int| 0 <= i < self.entries@.len() ==> {
            &&& is_lowercase_name(#[trigger] self.entries@[i].name@)
            &&& is_header_value(self.entries@[i].value@)
        }
    }

    /// No headers.
    pub fn new() -> (res: Self)
        ensures
            res@ == Seq::<(Seq<char>, Seq<u8>)>::empty(),
    {
        let res = RequestHeaders { entries: Vec::new() };
        assert(res@ =~= Seq::<(Seq<char>, Seq<u8>)>::empty());
        res
    }

    /// Adds a header after the others, if its name is lowercase and its value holds only
    /// header-value bytes; otherwise leaves the headers as they are.
    pub fn append(&mut self, name: &str, value: Vec<u8>) -> (added: bool)
        ensures
            added == (is_lowercase_name(name@) && is_header_value(value@)),
            final(self)@ == (if added { old(self)@.push((name@, value@)) } else { old(self)@ }),
    {
        proof { use_type_invariant(&*self); }
        let n = name.unicode_len();
        let mut i: usize = 0;
        while i < n
            invariant
                i <= n,
                n == name@.len(),
                forall|k: int| 0 <= k < i ==> !is_ascii_upper(#[trigger] name@[k]),
            decreases n - i,
        {
            let c = name.get_char(i);
            if 'A' <= c && c <= 'Z' {
                assert(is_ascii_upper(name@[i as int]));
                return false;
            }
            i = i + 1;
        }
        let mut j: usize = 0;
        while j < value.len()
            invariant
                j <= value@.len(),
                forall|k: int| 0 <= k < j ==> is_header_value_byte(#[trigger] value@[k]),
            decreases value@.len() - j,
        {
            let b = value[j];
            if !((b >= 32 && b != 127) || b == 9) {
                assert(!is_header_value_byte(value@[j as int]));
                return false;
            }
            j = j + 1;
        }
        let entry = HeaderEntry { name: name.to_owned(), value };
        let mut entries = Vec::new();
        std::mem::swap(&mut entries, &mut self.entries);
        let ghost before = entries@;
        assert(is_lowercase_name(entry.name@));
        entries.push(entry);
        assert forall|k: int| 0 <= k < entries@.len() implies is_lowercase_name(#[trigger] entries@[k].name@)
            && is_header_value(entries@[k].value@) by {
            if k < before.len() {
                assert(entries@[k] == before[k]);
            }
        }
        self.entries = entries;
        assert(self@ =~= old(self)@.push((name@, value@)));
        true
    }

    /// The value of the first header named `name`, compared without regard to ASCII case.
    pub fn get(&self, name: &str) -> (res: Option<&Vec<u8>>)
        ensures
            match res {
                Some(v) => header_lookup(self@, name@) == Some(v@) && is_header_value(v@),
                None => header_lookup(self@, name@) is None,
            },
    {
        proof { use_type_invariant(self); }
        assert(self@.skip(0) =~= self@);
        let mut i: usize = 0;
        while i < self.entries.len()
            invariant
                i <= self.entries@.len(),
                self.well_formed(),
                header_lookup(self@, name@) == header_lookup(self@.skip(i as int), name@),
            decreases self.entries@.len() - i,
        {
            let entry = &self.entries[i];
            let ghost rest = self@.skip(i as int);
            assert(rest[0] == self@[i as int]);
            assert(rest.drop_first() =~= self@.skip(i + 1));
            if equals_ascii_lowercase_of(entry.name.as_str(), name) {
                return Some(&entry.value);
            }
            i = i + 1;
        }
        assert(self@.skip(i as int) =~= Seq::<(Seq<char>, Seq<u8>)>::empty());
        None
    }

    /// The first header named `name`, read as text (`HeaderMap::get` then
    /// `HeaderValue::to_str`).
    pub fn get_text(&self, name: &str) -> (res: Option<Result<String, http::header::ToStrError>>)
        ensures
            match header_text(self@, name@) {
                None => res is None,
                Some(None) => res matches Some(Err(_)),
                Some(Some(text)) => res matches Some(Ok(s)) && s@ == text,
            },
    {
        match self.get(name) {
            None => None,
            Some(bytes) => Some(header_value_to_str(bytes.as_slice())),
        }
    }
}

} // verus!
