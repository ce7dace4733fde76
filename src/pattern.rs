use vstd::prelude::*;
use vstd::string::StringExecFns;
use vstd::utf8::encode_utf8;

verus! {

#[verifier::external_type_specification]
#[verifier::external_body]
pub struct ExRegex(regex::Regex);

#[verifier::external_type_specification]
#[verifier::external_body]
pub struct ExRegexError(regex::Error);

/// The leftmost-first match, as byte offsets `(start, end)`, of the regular
/// expression written `pattern` in the UTF-8 bytes `haystack`; `None` where
/// it matches nowhere.
pub uninterp spec fn first_match(pattern: Seq<char>, haystack: Seq<u8>) -> Option<(int, int)>;

/// Whether the text `pattern` compiles to a regular expression: it is valid
/// syntax and stays within the default size limit.
pub uninterp spec fn compiles(pattern: Seq<char>) -> bool;

/// The error of a text that does not compile to a regular expression.
#[derive(Debug)]
pub struct InvalidPattern {
    /// The text that was refused.
    pub source: String,
}

/// Relies on `regex::Regex::new`: it compiles `source`, or fails with
/// `regex::Error` when the text does not compile.
#[verifier::external_body]
fn compile(source: &str) -> (r: Result<Pattern, regex::Error>)
    ensures
        r is Ok == compiles(source@),
        r matches Ok(p) ==> p.source() == source@,
{
    regex::Regex::new(source).map(|regex| Pattern { source: source.to_string(), regex })
}

/// A compiled regular expression, together with the text it was compiled from.
///
/// Both fields are private and are set only by `Pattern::new`, so `regex` is
/// always the compilation of `source`.
pub struct Pattern {
    source: String,
    regex: regex::Regex,
}

impl Pattern {
    /// The text that the expression was compiled from.
    pub closed spec fn source(&self) -> Seq<char> {
        self.source@
    }

    /// Compiles `source`; fails exactly where the text does not compile.
    pub fn new(source: &str) -> (r: Result<Pattern, InvalidPattern>)
        ensures
            r is Ok == compiles(source@),
            r matches Ok(p) ==> p.source() == source@,
            r matches Err(e) ==> e.source@ == source@,
    {
        match compile(source) {
            Ok(p) => Ok(p),
            Err(_) => Err(InvalidPattern { source: <String as StringExecFns>::from_str(source) }),
        }
    }

    /// The text that the expression was compiled from.
    pub fn as_str(&self) -> (r: &str)
        ensures
            r@ == self.source(),
    {
        self.source.as_str()
    }

    /// Relies on `regex::Regex::find` and on `Match::start` and `Match::end`:
    /// the offsets of the first match in `haystack`, with
    /// `start <= end <= haystack.len()`.
    #[verifier::external_body]
    pub(crate) fn find_in(&self, haystack: &str) -> (r: Option<(usize, usize)>)
        ensures
            match r {
                Some((s, e)) => first_match(self.source(), encode_utf8(haystack@)) == Some(
                    (s as int, e as int),
                ) && s <= e && e <= encode_utf8(haystack@).len(),
                None => first_match(self.source(), encode_utf8(haystack@)) is None,
            },
    {
        self.regex.find(haystack).map(|m| (m.start(), m.end()))
    }
}

} // verus!
