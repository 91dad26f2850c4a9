//! Evaluation of a decoded request against the regular-expression engine.
use vstd::prelude::*;
use vstd::string::StringExecFns;

verus! {

/// Declares `std::io::Error`, opaque here, so that a failed read of the
/// input stream can be carried through an outcome and handed back.
#[verifier::external_type_specification]
#[verifier::external_body]
pub struct ExIoError(std::io::Error);

/// A request as decoded from the input document.
pub struct UntrustedInput {
    pub pattern: String,
    pub text: String,
}

impl View for UntrustedInput {
    type V = (Seq<char>, Seq<char>);

    open spec fn view(&self) -> (Seq<char>, Seq<char>) {
        (self.pattern@, self.text@)
    }
}

/// Why a request got no match verdict.
pub enum PatTestErr {
    /// The input document could not be decoded into a request.
    InvalidInput(String),
    /// The pattern could not be compiled.
    InvalidPattern(String),
    /// The input stream could not be read.
    IoError(std::io::Error),
}

/// Starts the diagnostic of an input document that did not decode.
pub const INPUT_PREFIX: &'static str = "unable to parse the input json: ";

/// Starts the diagnostic of a pattern that did not compile.
pub const PATTERN_PREFIX: &'static str = "invalid regular expression: ";

pub open spec fn input_message(diag: Seq<char>) -> Seq<char> {
    INPUT_PREFIX@ + diag
}

pub open spec fn pattern_message(diag: Seq<char>) -> Seq<char> {
    PATTERN_PREFIX@ + diag
}

/// What `regex::Regex::new` reports for a pattern: `None` when it compiles,
/// else the text of its error.
pub uninterp spec fn regex_error(pattern: Seq<char>) -> Option<Seq<char>>;

/// Whether the regex compiled from `pattern` matches anywhere in `text`.
pub uninterp spec fn regex_finds(pattern: Seq<char>, text: Seq<char>) -> bool;

/// The verdict on a pattern and a text: the match outcome when the pattern
/// compiles, else the diagnostic that the reply carries.
pub open spec fn evaluation(pattern: Seq<char>, text: Seq<char>) -> Result<bool, Seq<char>> {
    match regex_error(pattern) {
        None => Ok(regex_finds(pattern, text)),
        Some(d) => Err(pattern_message(d)),
    }
}

/// Relies on `regex::Regex::new`, which compiles `pattern` or returns an
/// error that displays why not, and on `regex::Regex::is_match`, which tells
/// whether the compiled regex matches anywhere in `text`. Both answers, and
/// the error's text, depend on the pattern and the text alone; neither call
/// panics, and matching runs in time linear in the text.
#[verifier::external_body]
fn regex_test(pattern: &str, text: &str) -> (r: Result<bool, String>)
    ensures
        match regex_error(pattern@) {
            None => r == Ok::<bool, String>(regex_finds(pattern@, text@)),
            Some(d) => r matches Err(e) && e@ == d,
        },
{
    match regex::Regex::new(pattern) {
        Ok(re) => Ok(re.is_match(text)),
        Err(e) => Err(e.to_string()),
    }
}

/// The verdict on the engine's answer: a match outcome is kept, and a
/// compile error becomes `InvalidPattern` with its diagnostic.
pub fn judge_compiled(compiled: Result<bool, String>) -> (r: Result<bool, PatTestErr>)
    ensures
        match compiled {
            Ok(b) => r matches Ok(c) && c == b,
            Err(d) => r matches Err(PatTestErr::InvalidPattern(m)) && m@ == pattern_message(d@),
        },
{
    match compiled {
        Ok(b) => Ok(b),
        Err(d) => {
            let mut m = String::from_str(PATTERN_PREFIX);
            m.append(d.as_str());
            Err(PatTestErr::InvalidPattern(m))
        },
    }
}

impl UntrustedInput {
    /// Compiles the pattern and tests it against the text.
    pub fn to_result(&self) -> (r: Result<bool, PatTestErr>)
        ensures
            match evaluation(self.pattern@, self.text@) {
                Ok(b) => r matches Ok(c) && c == b,
                Err(m) => r matches Err(PatTestErr::InvalidPattern(e)) && e@ == m,
            },
    {
        let compiled = regex_test(self.pattern.as_str(), self.text.as_str());
        judge_compiled(compiled)
    }
}

/// The verdict on a decoded request, or the diagnostic of a document that
/// did not decode.
pub open spec fn request_verdict(parsed: Result<(Seq<char>, Seq<char>), Seq<char>>) -> Result<
    bool,
    Seq<char>,
> {
    match parsed {
        Ok((pattern, text)) => evaluation(pattern, text),
        Err(diag) => Err(input_message(diag)),
    }
}

pub open spec fn parsed_view(parsed: Result<UntrustedInput, String>) -> Result<
    (Seq<char>, Seq<char>),
    Seq<char>,
> {
    match parsed {
        Ok(req) => Ok(req@),
        Err(diag) => Err(diag@),
    }
}

/// The verdict that an outcome carries, or `None` for a failure of the input
/// stream, which gets no reply.
pub open spec fn outcome_verdict(outcome: Result<bool, PatTestErr>) -> Option<Result<bool, Seq<char>>> {
    match outcome {
        Ok(b) => Some(Ok(b)),
        Err(PatTestErr::InvalidInput(m)) => Some(Err(m@)),
        Err(PatTestErr::InvalidPattern(m)) => Some(Err(m@)),
        Err(PatTestErr::IoError(_)) => None,
    }
}

/// Evaluates what decoding the input document gave: a request is tested,
/// a decode diagnostic becomes `InvalidInput`.
pub fn process_request(parsed: Result<UntrustedInput, String>) -> (r: Result<bool, PatTestErr>)
    ensures
        match parsed {
            Ok(req) => match evaluation(req.pattern@, req.text@) {
                Ok(b) => r matches Ok(c) && c == b,
                Err(m) => r matches Err(PatTestErr::InvalidPattern(e)) && e@ == m,
            },
            Err(d) => r matches Err(PatTestErr::InvalidInput(m)) && m@ == input_message(d@),
        },
        outcome_verdict(r) == Some(request_verdict(parsed_view(parsed))),
{
    match parsed {
        Ok(req) => req.to_result(),
        Err(d) => {
            let mut m = String::from_str(INPUT_PREFIX);
            m.append(d.as_str());
            Err(PatTestErr::InvalidInput(m))
        },
    }
}

} // verus!
