use vstd::prelude::*;

verus! {

/// Errors that flow through the engine.
///
/// Only the distinctions the controllers act on are modelled: environment
/// errors are retried later, every other error is recorded against its task.
#[derive(Debug)]
pub enum NatureError {
    SystemError(String),
    VerifyError(String),
    ConverterLogicalError(String),
    ConverterEnvironmentError(String),
    ConverterProtocalError(String),
    DaoEnvironmentError(String),
    DaoLogicalError(String),
    DaoDuplicated,
}

impl Clone for NatureError {
    fn clone(&self) -> (res: Self)
        ensures
            res == *self,
    {
        match self {
            NatureError::SystemError(s) => NatureError::SystemError(s.clone()),
            NatureError::VerifyError(s) => NatureError::VerifyError(s.clone()),
            NatureError::ConverterLogicalError(s) => NatureError::ConverterLogicalError(s.clone()),
            NatureError::ConverterEnvironmentError(s) => NatureError::ConverterEnvironmentError(s.clone()),
            NatureError::ConverterProtocalError(s) => NatureError::ConverterProtocalError(s.clone()),
            NatureError::DaoEnvironmentError(s) => NatureError::DaoEnvironmentError(s.clone()),
            NatureError::DaoLogicalError(s) => NatureError::DaoLogicalError(s.clone()),
            NatureError::DaoDuplicated => NatureError::DaoDuplicated,
        }
    }
}

/// What the `Debug` formatting of a string writes: the string in double
/// quotes, with std's escapes.
pub uninterp spec fn str_debug_text(s: Seq<char>) -> Seq<char>;

/// Writes `format!("{:?}", s)`, std's `Debug` text of a string.
/// Claimed: the text depends on the characters of `s` alone.
#[verifier::external_body]
fn str_debug(s: &String) -> (res: String)
    ensures
        res@ == str_debug_text(s@),
{
    format!("{:?}", s)
}

/// A variant with one text field, written as its name and the debug text of
/// the field in parentheses.
pub open spec fn tuple_text(name: Seq<char>, payload: Seq<char>) -> Seq<char> {
    name + "("@ + str_debug_text(payload) + ")"@
}

/// The text that names an error in a batch outcome: the variant's name and
/// the debug text of its message, as the error's `Debug` output writes it.
pub open spec fn error_text(e: NatureError) -> Seq<char> {
    match e {
        NatureError::SystemError(s) => tuple_text("SystemError"@, s@),
        NatureError::VerifyError(s) => tuple_text("VerifyError"@, s@),
        NatureError::ConverterLogicalError(s) => tuple_text("ConverterLogicalError"@, s@),
        NatureError::ConverterEnvironmentError(s) => tuple_text("ConverterEnvironmentError"@, s@),
        NatureError::ConverterProtocalError(s) => tuple_text("ConverterProtocalError"@, s@),
        NatureError::DaoEnvironmentError(s) => tuple_text("DaoEnvironmentError"@, s@),
        NatureError::DaoLogicalError(s) => tuple_text("DaoLogicalError"@, s@),
        NatureError::DaoDuplicated => "DaoDuplicated"@,
    }
}

fn tuple_text_of(name: &str, payload: &String) -> (res: String)
    ensures
        res@ == tuple_text(name@, payload@),
{
    let mut out = name.to_owned();
    out.append("(");
    let quoted = str_debug(payload);
    out.append(quoted.as_str());
    out.append(")");
    assert(out@ =~= tuple_text(name@, payload@));
    out
}

/// Writes the text that names `err` in a batch outcome.
pub fn debug_text(err: &NatureError) -> (res: String)
    ensures
        res@ == error_text(*err),
{
    match err {
        NatureError::SystemError(s) => tuple_text_of("SystemError", s),
        NatureError::VerifyError(s) => tuple_text_of("VerifyError", s),
        NatureError::ConverterLogicalError(s) => tuple_text_of("ConverterLogicalError", s),
        NatureError::ConverterEnvironmentError(s) => tuple_text_of("ConverterEnvironmentError", s),
        NatureError::ConverterProtocalError(s) => tuple_text_of("ConverterProtocalError", s),
        NatureError::DaoEnvironmentError(s) => tuple_text_of("DaoEnvironmentError", s),
        NatureError::DaoLogicalError(s) => tuple_text_of("DaoLogicalError", s),
        NatureError::DaoDuplicated => "DaoDuplicated".to_owned(),
    }
}

} // verus!
