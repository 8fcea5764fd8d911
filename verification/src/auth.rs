//! Basic authentication against a table of users.

use vstd::prelude::*;
use vstd::utf8::decode_utf8;
use vstd::utf8::valid_utf8;
use crate::body::utf8_text;
use crate::error::Error;

verus! {

/// The users of the service, each with a password. Where a user stands in
/// the table twice, the later entry counts.
#[derive(Debug)]
pub struct Credentials {
    entries: Vec<(String, String)>,
}

/// A user and a password as two texts.
pub type EntryView = (Seq<char>, Seq<char>);

/// The password of `user` in a table, `None` for a user that is not in it.
pub open spec fn password_of(entries: Seq<EntryView>, user: Seq<char>) -> Option<Seq<char>>
    decreases entries.len(),
{
    if entries.len() == 0 {
        None
    } else if entries.last().0 == user {
        Some(entries.last().1)
    } else {
        password_of(entries.drop_last(), user)
    }
}

impl View for Credentials {
    type V = Seq<EntryView>;

    closed spec fn view(&self) -> Seq<EntryView> {
        Seq::new(self.entries@.len(), |i: int| (self.entries@[i].0@, self.entries@[i].1@))
    }
}

impl Credentials {
    /// A table without users.
    pub fn new() -> (r: Credentials)
        ensures
            r@ == Seq::<EntryView>::empty(),
    {
        let r = Credentials { entries: Vec::new() };
        assert(r@ =~= Seq::<EntryView>::empty());
        r
    }

    /// Gives `user` the password `password`.
    pub fn insert(&mut self, user: String, password: String)
        ensures
            final(self)@ == old(self)@.push((user@, password@)),
    {
        self.entries.push((user, password));
        assert(self@ =~= old(self)@.push((user@, password@)));
    }

    /// Whether `password` is the password of `user`.
    pub fn accepts(&self, user: &String, password: &String) -> (r: bool)
        ensures
            r == (password_of(self@, user@) == Some(password@)),
    {
        let mut i: usize = self.entries.len();
        assert(self@.take(i as int) =~= self@);
        while i > 0
            invariant
                i <= self.entries.len(),
                password_of(self@, user@) == password_of(self@.take(i as int), user@),
            decreases i,
        {
            i -= 1;
            let ghost shorter = self@.take(i + 1);
            assert(shorter.drop_last() =~= self@.take(i as int));
            assert(shorter.last() == self@[i as int]);
            let entry = &self.entries[i];
            if entry.0 == *user {
                return entry.1 == *password;
            }
        }
        assert(self@.take(0) =~= Seq::<EntryView>::empty());
        false
    }
}

/// Whether a byte of a header value is printable: a tab, or from the space
/// up to the tilde.
pub open spec fn is_visible_ascii(b: u8) -> bool {
    32 <= b < 127 || b == 9
}

/// Whether a header value is printable text.
pub open spec fn is_visible_text(value: Seq<u8>) -> bool {
    forall|i: int| 0 <= i < value.len() ==> is_visible_ascii(#[trigger] value[i])
}

/// The scheme that a credentials header starts with: `Basic` and a space.
pub open spec fn basic_prefix() -> Seq<u8> {
    seq![66u8, 97u8, 115u8, 105u8, 99u8, 32u8]
}

/// Whether a header value starts with the scheme.
pub open spec fn has_basic_prefix(value: Seq<u8>) -> bool {
    value.len() >= 6 && value.subrange(0, 6) == basic_prefix()
}

/// Where the first colon at or after `from` stands in `s`, the length of
/// `s` where there is none.
pub open spec fn colon_at(s: Seq<u8>, from: int) -> int
    decreases s.len() - from,
{
    if from < 0 || from >= s.len() {
        s.len() as int
    } else if s[from] == 58 {
        from
    } else {
        colon_at(s, from + 1)
    }
}

/// What base64 text decodes to with the standard alphabet and padding,
/// `None` where it is no such text.
pub uninterp spec fn base64_decoded(text: Seq<u8>) -> Option<Seq<u8>>;

/// The bytes of `bytes`, where there are any.
pub open spec fn bytes_view(bytes: Option<Vec<u8>>) -> Option<Seq<u8>> {
    match bytes {
        Some(b) => Some(b@),
        None => None,
    }
}

/// `base64::Engine::decode` of the engine `base64::prelude::BASE64_STANDARD`.
/// Trusted: the outcome is a function of the text.
#[verifier::external_body]
fn base64_decode(text: &[u8]) -> (r: Option<Vec<u8>>)
    ensures
        bytes_view(r) == base64_decoded(text@),
{
    base64::Engine::decode(&base64::prelude::BASE64_STANDARD, text).ok()
}

/// What the credentials in a header value come to, for the bytes that the
/// base64 part decodes to: the user is what stands before the first colon,
/// the password what stands between the first colon and the second.
pub open spec fn checked(credentials: Seq<EntryView>, decoded: Seq<u8>) -> Result<bool, Error> {
    let user_end = colon_at(decoded, 0);
    let user = decoded.subrange(0, user_end);
    let password_end = colon_at(decoded, user_end + 1);
    if !valid_utf8(user) {
        Err(Error::ConversionError)
    } else if user_end >= decoded.len() {
        Err(Error::InvalidAuthentificationFormat)
    } else if !valid_utf8(decoded.subrange(user_end + 1, password_end)) {
        Err(Error::ConversionError)
    } else {
        Ok(
            password_of(credentials, decode_utf8(user)) == Some(
                decode_utf8(decoded.subrange(user_end + 1, password_end)),
            ),
        )
    }
}

/// What a credentials header comes to: it must be printable, start with the
/// scheme and go on with base64 text.
pub open spec fn authenticated(credentials: Seq<EntryView>, header: Seq<u8>) -> Result<bool, Error> {
    if !is_visible_text(header) {
        Err(Error::FailedHeaderConversion)
    } else if !has_basic_prefix(header) {
        Err(Error::InvalidAuthentificationFormat)
    } else {
        match base64_decoded(header.subrange(6, header.len() as int)) {
            None => Err(Error::DecodeError),
            Some(decoded) => checked(credentials, decoded),
        }
    }
}

/// Finds the first colon at or after `from`.
fn find_colon(bytes: &[u8], from: usize) -> (r: usize)
    requires
        from <= bytes@.len(),
    ensures
        r == colon_at(bytes@, from as int),
        from <= r <= bytes@.len(),
{
    let mut i: usize = from;
    while i < bytes.len() && bytes[i] != 58
        invariant
            from <= i <= bytes@.len(),
            colon_at(bytes@, from as int) == colon_at(bytes@, i as int),
        decreases bytes@.len() - i,
    {
        i += 1;
    }
    i
}

/// Whether every byte of `value` is printable.
fn visible_text(value: &[u8]) -> (r: bool)
    ensures
        r == is_visible_text(value@),
{
    let mut i: usize = 0;
    while i < value.len()
        invariant
            i <= value@.len(),
            forall|j: int| 0 <= j < i ==> is_visible_ascii(#[trigger] value@[j]),
        decreases value@.len() - i,
    {
        let b: u8 = value[i];
        if !(32 <= b && b < 127 || b == 9) {
            return false;
        }
        i += 1;
    }
    true
}

/// Whether `value` starts with the scheme.
fn basic_prefixed(value: &[u8]) -> (r: bool)
    ensures
        r == has_basic_prefix(value@),
{
    if value.len() < 6 {
        return false;
    }
    let r = value[0] == 66 && value[1] == 97 && value[2] == 115 && value[3] == 105 && value[4] == 99
        && value[5] == 32;
    proof {
        if r {
            assert(value@.subrange(0, 6) =~= basic_prefix());
        } else {
            let p = value@.subrange(0, 6);
            assert(p[0] == value@[0] && p[1] == value@[1] && p[2] == value@[2] && p[3] == value@[3]
                && p[4] == value@[4] && p[5] == value@[5]);
        }
    }
    r
}

/// Checks decoded credentials against the table.
pub fn check_credentials(credentials: &Credentials, decoded: &[u8]) -> (r: Result<bool, Error>)
    ensures
        r == checked(credentials@, decoded@),
{
    let user_end = find_colon(decoded, 0);
    let user = match utf8_text(vstd::slice::slice_subrange(decoded, 0, user_end)) {
        Some(user) => user,
        None => { return Err(Error::ConversionError); },
    };
    if user_end >= decoded.len() {
        return Err(Error::InvalidAuthentificationFormat);
    }
    let password_end = find_colon(decoded, user_end + 1);
    let password = match utf8_text(
        vstd::slice::slice_subrange(decoded, user_end + 1, password_end),
    ) {
        Some(password) => password,
        None => { return Err(Error::ConversionError); },
    };
    Ok(credentials.accepts(&user, &password))
}

/// Checks the value of a credentials header against the table: `Ok(true)`
/// where it names a user with that user's password.
pub fn auth(auth_header: &[u8], credentials: &Credentials) -> (r: Result<bool, Error>)
    ensures
        r == authenticated(credentials@, auth_header@),
{
    if !visible_text(auth_header) {
        return Err(Error::FailedHeaderConversion);
    }
    if !basic_prefixed(auth_header) {
        return Err(Error::InvalidAuthentificationFormat);
    }
    let encoded = vstd::slice::slice_subrange(auth_header, 6, auth_header.len());
    match base64_decode(encoded) {
        Some(decoded) => check_credentials(credentials, decoded.as_slice()),
        None => Err(Error::DecodeError),
    }
}

} // verus!
