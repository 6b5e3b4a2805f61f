//! Fixed-capacity text for the firmware identity, kept in `heapless::String`.
//!
//! Verus does not look inside a `heapless::String`.  What it knows of one is
//! what the functions below state, and those statements are taken on trust
//! from the `heapless` source.

use vstd::prelude::*;
use vstd::utf8::encode_utf8;

verus! {

/// Bytes that a firmware title may take.
pub const TITLE_CAPACITY: usize = 32;

/// Bytes that a firmware version may take.
pub const VERSION_CAPACITY: usize = 16;

/// `heapless::String<N>`: text in a buffer of `N` bytes, carried as it is.
#[verifier::external_type_specification]
#[verifier::external_body]
pub struct ExFixedString<const N: usize>(heapless::String<N>);

/// The number of bytes that a text takes in UTF-8.
pub open spec fn byte_len(text: Seq<char>) -> nat {
    encode_utf8(text).len()
}

/// The text held by a string of capacity 32.
pub uninterp spec fn title_text(s: heapless::String<32>) -> Seq<char>;

/// The text held by a string of capacity 16.
pub uninterp spec fn version_text(s: heapless::String<16>) -> Seq<char>;

/// `heapless::String::<32>::new`: a string that holds nothing.
#[verifier::external_body]
pub(crate) fn new_title() -> (s: heapless::String<32>)
    ensures
        title_text(s) == Seq::<char>::empty(),
{
    heapless::String::new()
}

/// `heapless::String::<32>::push_str`: appends `text` if the bytes held and
/// the bytes of `text` together are at most 32, and changes nothing otherwise.
#[verifier::external_body]
pub(crate) fn push_title(s: &mut heapless::String<32>, text: &str) -> (r: Result<(), ()>)
    ensures
        r is Ok <==> byte_len(title_text(*old(s))) + byte_len(text@) <= 32,
        r is Ok ==> title_text(*final(s)) == title_text(*old(s)) + text@,
        r is Err ==> title_text(*final(s)) == title_text(*old(s)),
{
    s.push_str(text)
}

/// `heapless::String::<32>::as_str`: the text held.
#[verifier::external_body]
pub(crate) fn title_str(s: &heapless::String<32>) -> (r: &str)
    ensures
        r@ == title_text(*s),
{
    s.as_str()
}

/// `heapless::String::<16>::new`: a string that holds nothing.
#[verifier::external_body]
pub(crate) fn new_version() -> (s: heapless::String<16>)
    ensures
        version_text(s) == Seq::<char>::empty(),
{
    heapless::String::new()
}

/// `heapless::String::<16>::push_str`: appends `text` if the bytes held and
/// the bytes of `text` together are at most 16, and changes nothing otherwise.
#[verifier::external_body]
pub(crate) fn push_version(s: &mut heapless::String<16>, text: &str) -> (r: Result<(), ()>)
    ensures
        r is Ok <==> byte_len(version_text(*old(s))) + byte_len(text@) <= 16,
        r is Ok ==> version_text(*final(s)) == version_text(*old(s)) + text@,
        r is Err ==> version_text(*final(s)) == version_text(*old(s)),
{
    s.push_str(text)
}

/// `heapless::String::<16>::as_str`: the text held.
#[verifier::external_body]
pub(crate) fn version_str(s: &heapless::String<16>) -> (r: &str)
    ensures
        r@ == version_text(*s),
{
    s.as_str()
}

} // verus!
