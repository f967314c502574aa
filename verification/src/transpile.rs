//! Syntax hints for the source transformer.
//!
//! The transformer itself — `(source, syntax-hint, module-flag) ->
//! source`, fallible — is an external collaborator; the host only decides
//! which syntax hint to hand it. The hint is inferred from a file
//! extension, under the host's two capability switches: whether the
//! superset language is enabled, and whether the XML-ish component syntax
//! is enabled.

use vstd::prelude::*;

use crate::strutil::str_eq;

verus! {

/// The syntax a piece of source text is to be parsed as.
#[derive(Clone, Copy, Debug, PartialEq, Eq, Structural)]
pub enum SyntaxTag {
    /// The base scripting language; `jsx` enables the component syntax.
    Es { jsx: bool },
    /// The typed superset language; `tsx` enables the component syntax.
    Typescript { tsx: bool },
}

impl SyntaxTag {
    /// The hint used when nothing better is known: the plain base language.
    pub fn base() -> (r: SyntaxTag)
        ensures
            r == (SyntaxTag::Es { jsx: false }),
    {
        SyntaxTag::Es { jsx: false }
    }
}

/// An extension that no syntax can be inferred from.
#[derive(Clone, Copy, Debug, PartialEq, Eq, Structural)]
pub enum InferTranspileSyntaxError {
    InvalidExtension,
}

/// What the transformer reported when it failed: a parse error, an error
/// while emitting the rewritten program, or rewritten bytes that were not
/// valid UTF-8. The payload carries the transformer's own message.
#[derive(Clone, Debug, PartialEq, Eq)]
pub enum EasySwcTranspilerError {
    SwcParse(String),
    SwcEmitProgram(String),
    Utf8(String),
}

impl EasySwcTranspilerError {
    /// The transformer's own message.
    pub fn message(&self) -> (r: &String)
        ensures
            r@ == self.message_view(),
    {
        match self {
            EasySwcTranspilerError::SwcParse(m) => m,
            EasySwcTranspilerError::SwcEmitProgram(m) => m,
            EasySwcTranspilerError::Utf8(m) => m,
        }
    }

    /// The message carried, whatever the kind.
    pub open spec fn message_view(&self) -> Seq<char> {
        match self {
            EasySwcTranspilerError::SwcParse(m) => m@,
            EasySwcTranspilerError::SwcEmitProgram(m) => m@,
            EasySwcTranspilerError::Utf8(m) => m@,
        }
    }
}

/// The syntax inferred from `extension` under the two capability
/// switches; `None` when no syntax fits.
pub open spec fn inferred_syntax(
    extension: Seq<char>,
    typescript: bool,
    react: bool,
) -> Option<SyntaxTag> {
    if extension == "js"@ || extension == "mjs"@ {
        Some(SyntaxTag::Es { jsx: false })
    } else if extension == "jsx"@ || extension == "mjsx"@ {
        if react {
            Some(SyntaxTag::Es { jsx: true })
        } else {
            None
        }
    } else if extension == "ts"@ {
        if typescript {
            Some(SyntaxTag::Typescript { tsx: false })
        } else {
            None
        }
    } else if extension == "tsx"@ {
        if typescript && react {
            Some(SyntaxTag::Typescript { tsx: true })
        } else {
            None
        }
    } else {
        None
    }
}

/// Infer the transformer's syntax hint from a file extension.
pub fn infer_transpile_syntax_by_extension(
    extension: &str,
    typescript: bool,
    react: bool,
) -> (r: Option<SyntaxTag>)
    ensures
        r == inferred_syntax(extension@, typescript, react),
{
    if str_eq(extension, "js") || str_eq(extension, "mjs") {
        Some(SyntaxTag::Es { jsx: false })
    } else if str_eq(extension, "jsx") || str_eq(extension, "mjsx") {
        if react {
            Some(SyntaxTag::Es { jsx: true })
        } else {
            None
        }
    } else if str_eq(extension, "ts") {
        if typescript {
            Some(SyntaxTag::Typescript { tsx: false })
        } else {
            None
        }
    } else if str_eq(extension, "tsx") {
        if typescript && react {
            Some(SyntaxTag::Typescript { tsx: true })
        } else {
            None
        }
    } else {
        None
    }
}

/// The richest extension the host can transpile from, given its two
/// capability switches.
pub fn get_best_transpiling(typescript: bool, react: bool) -> (r: &'static str)
    ensures
        !typescript && !react ==> r@ == "js"@,
        !typescript && react ==> r@ == "jsx"@,
        typescript && !react ==> r@ == "ts"@,
        typescript && react ==> r@ == "tsx"@,
{
    match (typescript, react) {
        (false, false) => "js",
        (false, true) => "jsx",
        (true, false) => "ts",
        (true, true) => "tsx",
    }
}

} // verus!
