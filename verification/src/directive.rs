//! Directive parsing: validating and extracting the source path and the
//! optional library name from the raw argument tokens of one directive
//! occurrence.

use vstd::prelude::*;

verus! {

/// One raw argument token of a directive occurrence.
///
/// The host hands the directive's arguments over as a sequence of these:
/// string-literal arguments, the separator between them, and anything else
/// as [`ArgToken::Other`] carrying its printed form for error messages.
pub enum ArgToken {
    /// A string-literal argument, already decoded to its text.
    Literal(String),
    /// The separator between the two arguments.
    Separator,
    /// Any other token, carrying its printed form.
    Other(String),
}

/// A parsed directive: the source directory to build and the optional
/// library to link afterwards. Immutable once parsed.
#[derive(Clone, PartialEq, Eq, Debug)]
pub struct BuildDirective {
    /// Path of the native source directory.
    pub source_path: String,
    /// Name of the library to link, if the directive names one.
    pub library_name: Option<String>,
}

/// The printed form of a token, as it appears in a literal-expectation
/// error message.
pub open spec fn spec_token_description(t: ArgToken) -> Seq<char> {
    match t {
        ArgToken::Literal(s) => s@,
        ArgToken::Separator => ","@,
        ArgToken::Other(d) => d@,
    }
}

/// The message of a literal-expectation failure over the printed form of
/// the offending token.
pub open spec fn spec_expected_literal_msg(desc: Seq<char>) -> Seq<char> {
    "expected string literal but got `"@ + desc + "`"@
}

/// A string decodes into a valid filesystem path when it is non-empty and
/// free of NUL characters.
pub open spec fn spec_valid_path(s: Seq<char>) -> bool {
    &&& s.len() > 0
    &&& forall|i: int| 0 <= i < s.len() ==> s[i] != '\0'
}

/// What parsing a token sequence yields: the source path and optional
/// library name, or the message of the `MalformedDirective` error.
pub open spec fn spec_parse(toks: Seq<ArgToken>) -> Result<(Seq<char>, Option<Seq<char>>), Seq<char>> {
    if toks.len() == 0 {
        Err(spec_expected_literal_msg("<eof>"@))
    } else {
        match toks[0] {
            ArgToken::Literal(p) => {
                if !spec_valid_path(p@) {
                    Err("the path is not valid"@)
                } else if toks.len() == 1 {
                    Ok((p@, None))
                } else if toks[1] is Separator {
                    if toks.len() == 2 {
                        Err(spec_expected_literal_msg("<eof>"@))
                    } else {
                        match toks[2] {
                            ArgToken::Literal(l) => {
                                if toks.len() == 3 {
                                    Ok((p@, Some(l@)))
                                } else {
                                    Err("too many arguments"@)
                                }
                            },
                            t => Err(spec_expected_literal_msg(spec_token_description(t))),
                        }
                    }
                } else {
                    Err("too many arguments"@)
                }
            },
            t => Err(spec_expected_literal_msg(spec_token_description(t))),
        }
    }
}

/// The view of an optional library name.
pub open spec fn spec_opt_name(o: Option<String>) -> Option<Seq<char>> {
    match o {
        Some(s) => Some(s@),
        None => None,
    }
}

/// Builds the message of a literal-expectation failure.
fn expected_literal_msg(desc: &str) -> (r: String)
    ensures
        r@ == spec_expected_literal_msg(desc@),
{
    String::from_str("expected string literal but got `").concat(desc).concat("`")
}

/// Extracts the text of a string-literal token, or the literal-expectation
/// message naming what stood there instead.
pub fn token_to_literal(t: &ArgToken) -> (r: Result<String, String>)
    ensures
        match r {
            Ok(s) => t matches ArgToken::Literal(p) && s@ == p@,
            Err(m) => !(t is Literal) && m@ == spec_expected_literal_msg(spec_token_description(*t)),
        },
{
    match t {
        ArgToken::Literal(s) => Ok(s.clone()),
        ArgToken::Separator => Err(expected_literal_msg(",")),
        ArgToken::Other(d) => Err(expected_literal_msg(d.as_str())),
    }
}

/// Checks that a string decodes into a valid filesystem path: non-empty
/// and free of NUL characters.
pub fn is_valid_path(s: &str) -> (r: bool)
    ensures
        r == spec_valid_path(s@),
{
    let n = s.unicode_len();
    if n == 0 {
        return false;
    }
    let mut i: usize = 0;
    while i < n
        invariant
            n == s@.len(),
            0 <= i <= n,
            forall|j: int| 0 <= j < i ==> s@[j] != '\0',
        decreases n - i,
    {
        if s.get_char(i) == '\0' {
            return false;
        }
        i = i + 1;
    }
    true
}

/// Parses one directive occurrence out of its raw argument tokens.
///
/// Exactly one or two string literals, separated by a single separator
/// token, are accepted; everything else fails with the message of the
/// corresponding `MalformedDirective` error, as [`spec_parse`] lays out.
pub fn parse_directive(tokens: &Vec<ArgToken>) -> (r: Result<BuildDirective, String>)
    ensures
        match r {
            Ok(d) => spec_parse(tokens@) == Ok::<_, Seq<char>>((d.source_path@, spec_opt_name(d.library_name))),
            Err(m) => spec_parse(tokens@) == Err::<(Seq<char>, Option<Seq<char>>), _>(m@),
        },
{
    if tokens.len() == 0 {
        return Err(expected_literal_msg("<eof>"));
    }
    let path = match token_to_literal(&tokens[0]) {
        Ok(p) => p,
        Err(m) => {
            return Err(m);
        },
    };
    if !is_valid_path(path.as_str()) {
        return Err(String::from_str("the path is not valid"));
    }
    if tokens.len() == 1 {
        return Ok(BuildDirective { source_path: path, library_name: None });
    }
    if !(matches!(&tokens[1], ArgToken::Separator)) {
        return Err(String::from_str("too many arguments"));
    }
    if tokens.len() == 2 {
        return Err(expected_literal_msg("<eof>"));
    }
    let name = match token_to_literal(&tokens[2]) {
        Ok(l) => l,
        Err(m) => {
            return Err(m);
        },
    };
    if tokens.len() > 3 {
        return Err(String::from_str("too many arguments"));
    }
    Ok(BuildDirective { source_path: path, library_name: Some(name) })
}

} // verus!
