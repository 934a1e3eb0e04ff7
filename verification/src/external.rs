//! What the library takes from other crates and from std without proof.

use vstd::prelude::*;

verus! {

/// A diagnostic of the language server protocol. The library stores it and hands it on; it does
/// not look inside.
#[verifier::external_type_specification]
#[verifier::external_body]
pub struct ExDiagnostic(lsp_types::Diagnostic);

/// A JSON value: a configuration section as the client sent it, or the additional data of an
/// error response. The library hands it on; it does not look inside.
#[verifier::external_type_specification]
#[verifier::external_body]
pub struct ExJsonValue(serde_json::Value);

/// The error of a failed request, of any type.
#[verifier::external_type_specification]
#[verifier::external_body]
pub struct ExAnyhowError(anyhow::Error);

/// The answer to a failed request. The library hands it on; it does not look inside.
#[verifier::external_type_specification]
#[verifier::external_body]
pub struct ExResponseError(async_lsp::ResponseError);

/// `Diagnostic::clone` copies every field, so the clone is the same diagnostic.
pub assume_specification[ <lsp_types::Diagnostic as Clone>::clone ](
    diagnostic: &lsp_types::Diagnostic,
) -> (clone: lsp_types::Diagnostic)
    ensures
        clone == *diagnostic,
;

/// `Value::default` is callable. Which value it returns (JSON's `null`) is not stated, because
/// the library does not look inside a `Value`.
pub assume_specification[ <serde_json::Value as Default>::default ]() -> (value: serde_json::Value)
;

/// `anyhow::Error::is` is callable. Whether it finds an error of type `E` depends on what the
/// error was made from, which the library does not see.
pub assume_specification<E>[ anyhow::Error::is::<E> ](error: &anyhow::Error) -> (is: bool) where
    E: std::fmt::Display + std::fmt::Debug + Send + Sync + 'static,
;

/// `anyhow::Error::downcast` gives the error back as it is where it finds no error of type `E` in
/// it. Whether it finds one depends on what the error was made from, which the library does not
/// see.
pub assume_specification<E>[ anyhow::Error::downcast::<E> ](error: anyhow::Error) -> (found: Result<
    E,
    anyhow::Error,
>) where E: std::fmt::Display + std::fmt::Debug + Send + Sync + 'static
    ensures
        found matches Err(same) ==> same == error,
;

/// The path, in the encoding of `OsString::into_encoded_bytes`, that `Url::to_file_path` makes of
/// the URL `url`, by the path rules of the platform that the library is compiled for.
/// `None` where `url` is no URL or has no such path.
pub uninterp spec fn url_file_path(url: Seq<char>) -> Option<Seq<u8>>;

/// Calls `Url::to_file_path` on the URL that `url` spells. The contract claims that the result
/// is decided by the text of the URL alone, and names it.
#[verifier::external_body]
pub(crate) fn url_to_file_path(url: &str) -> (path: Option<Vec<u8>>)
    ensures
        match path {
            Some(bytes) => url_file_path(url@) == Some(bytes@),
            None => url_file_path(url@) is None,
        },
{
    let url = lsp_types::Url::parse(url).ok()?;
    let path = url.to_file_path().ok()?;
    Some(path.into_os_string().into_encoded_bytes())
}

/// Calls `std::str::from_utf8`. The contract claims that it accepts just the valid UTF-8, and
/// gives the characters that the bytes encode.
#[verifier::external_body]
pub(crate) fn utf8_text(bytes: &[u8]) -> (text: Option<&str>)
    ensures
        match text {
            Some(text) => vstd::utf8::valid_utf8(bytes@) && text@ == vstd::utf8::decode_utf8(
                bytes@,
            ),
            None => !vstd::utf8::valid_utf8(bytes@),
        },
{
    std::str::from_utf8(bytes).ok()
}

/// The path that `Path::join` makes of the directory `dir` and `name`, by the path rules of the
/// platform that the library is compiled for.
pub uninterp spec fn joined_path(dir: Seq<char>, name: Seq<char>) -> Seq<char>;

/// Calls `Path::join` on two paths that are text, which gives a path that is text. The contract
/// claims that the result is decided by the two texts alone, and names it.
#[verifier::external_body]
pub(crate) fn join_path(dir: &str, name: &str) -> (path: String)
    ensures
        path@ == joined_path(dir@, name@),
{
    std::path::Path::new(dir).join(name).to_string_lossy().into_owned()
}

/// The text that `Debug` of `Path` makes of `path`: quoted, and escaped where it has to be.
pub uninterp spec fn path_debug(path: Seq<char>) -> Seq<char>;

/// Formats a path that is text by `Debug` of `Path`. The contract claims that the result is
/// decided by that text alone, and names it.
#[verifier::external_body]
pub(crate) fn debug_path(path: &str) -> (text: String)
    ensures
        text@ == path_debug(path@),
{
    format!("{:?}", std::path::Path::new(path))
}

} // verus!
