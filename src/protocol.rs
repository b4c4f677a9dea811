//! Method names, request classification and the texts of the error replies.

use vstd::prelude::*;
use lsp_types::request::{Formatting, Initialize, Request};

verus! {

/// The kind of a request, as told by its method name.
#[derive(Clone, Copy, Debug, PartialEq, Eq, Structural)]
pub enum MethodKind {
    Initialize,
    Formatting,
    Unsupported,
}

/// The method name of the initialization handshake.
pub open spec fn initialize_name() -> Seq<char> {
    "initialize"@
}

/// The method name of a whole-document formatting request.
pub open spec fn formatting_name() -> Seq<char> {
    "textDocument/formatting"@
}

/// What a method name asks for.
pub open spec fn method_kind(method: Seq<char>) -> MethodKind {
    if method == initialize_name() {
        MethodKind::Initialize
    } else if method == formatting_name() {
        MethodKind::Formatting
    } else {
        MethodKind::Unsupported
    }
}

/// The reply to a method that the adapter does not handle.
pub open spec fn unsupported_text(method: Seq<char>) -> Seq<char> {
    "Prettier plugin does not support method '"@ + method + "'"@
}

/// The reply to a document URI that names no local file.
pub open spec fn invalid_path_text(uri: Seq<char>) -> Seq<char> {
    "'"@ + uri + "' is not a valid file path"@
}

/// The reply to a local path that is not valid text.
pub open spec fn invalid_unicode_text(uri: Seq<char>) -> Seq<char> {
    "'"@ + uri + "' is not a valid unicode string"@
}

/// Whether `c` is the letter `lower` in either ASCII case.
pub open spec fn letter_either_case(c: char, lower: char, upper: char) -> bool {
    c == lower || c == upper
}

/// Whether a URI's scheme is `file` (schemes are compared without regard to
/// ASCII case).
pub open spec fn file_scheme(uri: Seq<char>) -> bool {
    &&& uri.len() >= 5
    &&& letter_either_case(uri[0], 'f', 'F')
    &&& letter_either_case(uri[1], 'i', 'I')
    &&& letter_either_case(uri[2], 'l', 'L')
    &&& letter_either_case(uri[3], 'e', 'E')
    &&& uri[4] == ':'
}

/// Relies on lsp_types' `Initialize::METHOD`, the handshake's method name.
#[verifier::external_body]
fn initialize_method() -> (r: &'static str)
    ensures
        r@ == initialize_name(),
{
    <Initialize as Request>::METHOD
}

/// Relies on lsp_types' `Formatting::METHOD`, the formatting request's method
/// name.
#[verifier::external_body]
fn formatting_method() -> (r: &'static str)
    ensures
        r@ == formatting_name(),
{
    <Formatting as Request>::METHOD
}

/// Whether two strings hold the same characters.
pub fn text_equal(a: &str, b: &str) -> (r: bool)
    ensures
        r == (a@ == b@),
{
    let n = a.unicode_len();
    if n != b.unicode_len() {
        return false;
    }
    let mut i: usize = 0;
    while i < n
        invariant
            n == a@.len(),
            n == b@.len(),
            i <= n,
            a@.subrange(0, i as int) == b@.subrange(0, i as int),
        decreases n - i,
    {
        if a.get_char(i) != b.get_char(i) {
            assert(a@[i as int] != b@[i as int]);
            return false;
        }
        assert(a@.subrange(0, i + 1) =~= a@.subrange(0, i as int).push(a@[i as int]));
        assert(b@.subrange(0, i + 1) =~= b@.subrange(0, i as int).push(b@[i as int]));
        i = i + 1;
    }
    assert(a@ =~= a@.subrange(0, n as int));
    assert(b@ =~= b@.subrange(0, n as int));
    true
}

/// Classifies a request by its method name.
pub fn decode_method(method: &str) -> (r: MethodKind)
    ensures
        r == method_kind(method@),
{
    if text_equal(method, initialize_method()) {
        MethodKind::Initialize
    } else if text_equal(method, formatting_method()) {
        MethodKind::Formatting
    } else {
        MethodKind::Unsupported
    }
}

/// Whether a URI's scheme is `file`.
pub fn has_file_scheme(uri: &str) -> (r: bool)
    ensures
        r == file_scheme(uri@),
{
    if uri.unicode_len() < 5 {
        return false;
    }
    let c0 = uri.get_char(0);
    let c1 = uri.get_char(1);
    let c2 = uri.get_char(2);
    let c3 = uri.get_char(3);
    (c0 == 'f' || c0 == 'F') && (c1 == 'i' || c1 == 'I') && (c2 == 'l' || c2 == 'L') && (c3
        == 'e' || c3 == 'E') && uri.get_char(4) == ':'
}

/// The error text for a method that the adapter does not handle.
pub fn unsupported_method_message(method: &str) -> (r: String)
    ensures
        r@ == unsupported_text(method@),
{
    let mut s = String::from_str("Prettier plugin does not support method '");
    s.append(method);
    s.append("'");
    s
}

/// The error text for a document URI that names no local file.
pub fn invalid_path_message(uri: &str) -> (r: String)
    ensures
        r@ == invalid_path_text(uri@),
{
    let mut s = String::from_str("'");
    s.append(uri);
    s.append("' is not a valid file path");
    s
}

/// The error text for a local path that is not valid text.
pub fn invalid_unicode_message(uri: &str) -> (r: String)
    ensures
        r@ == invalid_unicode_text(uri@),
{
    let mut s = String::from_str("'");
    s.append(uri);
    s.append("' is not a valid unicode string");
    s
}

} // verus!
