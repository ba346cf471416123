//! The errors that evaluation reports.

use vstd::prelude::*;
use vstd::string::*;
use crate::ast::Position;
use crate::text::{nat_text, nat_to_string};

verus! {

/// The kinds of failure.
#[derive(Clone, Copy, Debug, PartialEq, Eq, Structural)]
pub enum ErrorType {
    TypeFail,
    DuplicateBinding,
    Unsupported,
    NoSuchSymbol,
    BadArgLen,
    FormatError,
    IncludeError,
    ImportError,
    ReservedWordError,
    ParseError,
    AssertError,
    OSError,
    ConvertError,
    UserDefined,
}

impl ErrorType {
    /// The name under which a kind is printed.
    pub open spec fn name_spec(self) -> Seq<char> {
        match self {
            ErrorType::TypeFail => "TypeFail"@,
            ErrorType::DuplicateBinding => "DuplicateBinding"@,
            ErrorType::Unsupported => "Unsupported"@,
            ErrorType::NoSuchSymbol => "NoSuchSymbol"@,
            ErrorType::BadArgLen => "BadArgLen"@,
            ErrorType::FormatError => "FormatError"@,
            ErrorType::IncludeError => "IncludeError"@,
            ErrorType::ImportError => "ImportError"@,
            ErrorType::ReservedWordError => "ReservedWordError"@,
            ErrorType::ParseError => "ParseError"@,
            ErrorType::AssertError => "AssertError"@,
            ErrorType::OSError => "OSError"@,
            ErrorType::ConvertError => "ConvertError"@,
            ErrorType::UserDefined => "UserDefined"@,
        }
    }

    /// The name under which a kind is printed.
    pub fn name(&self) -> (r: &'static str)
        ensures
            r@ == self.name_spec(),
    {
        match self {
            ErrorType::TypeFail => "TypeFail",
            ErrorType::DuplicateBinding => "DuplicateBinding",
            ErrorType::Unsupported => "Unsupported",
            ErrorType::NoSuchSymbol => "NoSuchSymbol",
            ErrorType::BadArgLen => "BadArgLen",
            ErrorType::FormatError => "FormatError",
            ErrorType::IncludeError => "IncludeError",
            ErrorType::ImportError => "ImportError",
            ErrorType::ReservedWordError => "ReservedWordError",
            ErrorType::ParseError => "ParseError",
            ErrorType::AssertError => "AssertError",
            ErrorType::OSError => "OSError",
            ErrorType::ConvertError => "ConvertError",
            ErrorType::UserDefined => "UserDefined",
        }
    }
}

/// A failure of evaluation: its kind, its message, where it arose and what caused it.
#[derive(Debug, PartialEq)]
pub struct BuildError {
    pub err_type: ErrorType,
    pub pos: Option<Position>,
    pub msg: String,
    pub cause: Option<Box<BuildError>>,
}

/// The mathematical content of a [`BuildError`].
pub ghost struct BuildErrorV {
    pub err_type: ErrorType,
    pub pos: Option<Position>,
    pub msg: Seq<char>,
    pub cause: Option<Box<BuildErrorV>>,
}

/// The content of an error, causes included.
pub open spec fn error_view(e: BuildError) -> BuildErrorV
    decreases e,
{
    BuildErrorV {
        err_type: e.err_type,
        pos: e.pos,
        msg: e.msg@,
        cause: match e.cause {
            Some(c) => Some(Box::new(error_view(*c))),
            None => None,
        },
    }
}

impl View for BuildError {
    type V = BuildErrorV;

    open spec fn view(&self) -> BuildErrorV {
        error_view(*self)
    }
}

/// The file name that a position is printed with.
pub open spec fn file_text(pos: Position) -> Seq<char> {
    match pos.file {
        Some(f) => f@,
        None => "<eval>"@,
    }
}

/// The text ` at FILE line: L, column: C` of a position.
pub open spec fn position_text(pos: Position) -> Seq<char> {
    " at "@ + file_text(pos) + " line: "@ + nat_text(pos.line as nat) + ", column: "@ + nat_text(
        pos.column as nat,
    )
}

/// The printed form of an error: kind, message, position, then each cause after
/// a `Caused By:` line.
pub open spec fn render_spec(e: BuildErrorV) -> Seq<char>
    decreases e,
{
    let head = e.err_type.name_spec() + ": "@ + e.msg;
    let located = match e.pos {
        Some(p) => head + position_text(p),
        None => head,
    };
    match e.cause {
        Some(c) => located + "\nCaused By:\n\t"@ + render_spec(*c),
        None => located,
    }
}

/// Renders ` at FILE line: L, column: C`.
pub fn position_to_string(pos: &Position) -> (r: String)
    ensures
        r@ == position_text(*pos),
{
    let s = String::from_str(" at ");
    let s = match &pos.file {
        Some(f) => s.concat(f.as_str()),
        None => s.concat("<eval>"),
    };
    let s = s.concat(" line: ");
    let s = s.concat(nat_to_string(pos.line as u64).as_str());
    let s = s.concat(", column: ");
    s.concat(nat_to_string(pos.column as u64).as_str())
}

impl BuildError {
    /// An error at a position.
    pub fn with_pos(msg: String, t: ErrorType, pos: Position) -> (r: BuildError)
        ensures
            r@ == (BuildErrorV { err_type: t, pos: Some(pos), msg: msg@, cause: None }),
    {
        BuildError { err_type: t, pos: Some(pos), msg, cause: None }
    }

    /// An error without a position.
    pub fn new(msg: String, t: ErrorType) -> (r: BuildError)
        ensures
            r@ == (BuildErrorV { err_type: t, pos: None, msg: msg@, cause: None }),
    {
        BuildError { err_type: t, pos: None, msg, cause: None }
    }

    /// The same error, with `cause` recorded as what led to it.
    pub fn wrap_cause(self, cause: Box<BuildError>) -> (r: BuildError)
        ensures
            r@ == (BuildErrorV { cause: Some(Box::new((*cause)@)), ..self@ }),
    {
        BuildError { err_type: self.err_type, pos: self.pos, msg: self.msg, cause: Some(cause) }
    }

    /// The error behind a box.
    pub fn to_boxed(self) -> (r: Box<BuildError>)
        ensures
            *r == self,
    {
        Box::new(self)
    }

    /// The printed form of the error.
    pub fn render(&self) -> (r: String)
        ensures
            r@ == render_spec(self@),
        decreases *self,
    {
        let head = String::from_str(self.err_type.name()).concat(": ").concat(self.msg.as_str());
        let located = match &self.pos {
            Some(p) => head.concat(position_to_string(p).as_str()),
            None => head,
        };
        match &self.cause {
            Some(c) => {
                let inner = c.render();
                located.concat("\nCaused By:\n\t").concat(inner.as_str())
            },
            None => located,
        }
    }
}

/// What a parser reports: a message, where it arose and what caused it.
#[derive(Debug)]
pub struct ParseFailure {
    pub msg: String,
    pub context: Position,
    pub cause: Option<Box<ParseFailure>>,
}

/// The printed form of a parser's report: one line for each failure, from the
/// outermost on, the causes indented by `tab` and each announced by a
/// `Caused by:` line.
pub open spec fn stack_text(e: ParseFailure, tab: Seq<char>) -> Seq<char>
    decreases e,
{
    let line = tab + e.msg@ + ": at "@ + file_text(e.context) + " line: "@ + nat_text(
        e.context.line as nat,
    ) + ", column: "@ + nat_text(e.context.column as nat) + "\n"@;
    match e.cause {
        Some(c) => line + "Caused by:\n"@ + stack_text(*c, "\t"@),
        None => line,
    }
}

/// Prints what a parser reports.
#[derive(Debug)]
pub struct StackPrinter {
    pub err: ParseFailure,
}

impl StackPrinter {
    fn render_from(e: &ParseFailure, tab: &str) -> (r: String)
        ensures
            r@ == stack_text(*e, tab@),
        decreases *e,
    {
        let line = String::from_str(tab).concat(e.msg.as_str()).concat(": at ");
        let line = match &e.context.file {
            Some(f) => line.concat(f.as_str()),
            None => line.concat("<eval>"),
        };
        let line = line.concat(" line: ").concat(nat_to_string(e.context.line as u64).as_str()).concat(
            ", column: ",
        ).concat(nat_to_string(e.context.column as u64).as_str()).concat("\n");
        match &e.cause {
            Some(c) => {
                let rest = Self::render_from(c, "\t");
                line.concat("Caused by:\n").concat(rest.as_str())
            },
            None => line,
        }
    }

    /// The printed form of the report.
    pub fn render(&self) -> (r: String)
        ensures
            r@ == stack_text(self.err, Seq::empty()),
    {
        proof {
            reveal_strlit("");
            assert(""@ =~= Seq::<char>::empty());
        }
        Self::render_from(&self.err, "")
    }
}

} // verus!
