//! The rendering of format templates.

use vstd::prelude::*;
use vstd::string::*;
use std::rc::Rc;
use crate::ast::Position;
use crate::build::text_result_view;
use crate::build::ops::{err_at, error_at};
use crate::error::{BuildError, BuildErrorV, ErrorType};
use crate::ir::{Val, ValV, list_view};

verus! {

/// The rendering of a positional template from index `i` on. Each `@` is
/// replaced by the text of the next argument, a backslash makes the character
/// after it ordinary, and every argument must be used exactly once.
pub open spec fn simple_render_from(
    tmpl: Seq<char>,
    args: Seq<ValV>,
    i: int,
    count: int,
    escape: bool,
    buf: Seq<char>,
    pos: Position,
) -> Result<Seq<char>, BuildErrorV>
    decreases tmpl.len() - i,
{
    if 0 <= i < tmpl.len() {
        let c = tmpl[i];
        if c == '@' && !escape {
            if 0 <= count < args.len() {
                simple_render_from(tmpl, args, i + 1, count + 1, false, buf + args[count].text(), pos)
            } else {
                Err(
                    err_at(
                        ErrorType::FormatError,
                        "Too few arguments to string formatter."@,
                        pos,
                    ),
                )
            }
        } else if c == '\\' && !escape {
            simple_render_from(tmpl, args, i + 1, count, true, buf, pos)
        } else {
            simple_render_from(tmpl, args, i + 1, count, false, buf.push(c), pos)
        }
    } else if count != args.len() {
        Err(err_at(ErrorType::FormatError, "Too many arguments to string formatter."@, pos))
    } else {
        Ok(buf)
    }
}

/// The rendering of a positional template.
pub open spec fn simple_render(tmpl: Seq<char>, args: Seq<ValV>, pos: Position) -> Result<
    Seq<char>,
    BuildErrorV,
> {
    simple_render_from(tmpl, args, 0, 0, false, Seq::empty(), pos)
}

/// The index just after the first `}@` at or after `from`, or `-1` where
/// there is none.
pub open spec fn section_end(tmpl: Seq<char>, from: int) -> int
    decreases tmpl.len() - from,
{
    if 0 <= from && from + 1 < tmpl.len() {
        if tmpl[from] == '}' && tmpl[from + 1] == '@' {
            from + 2
        } else {
            section_end(tmpl, from + 1)
        }
    } else {
        -1
    }
}

/// Where a section ends lies after where it was looked for, and within the template.
pub proof fn lemma_section_end(tmpl: Seq<char>, from: int)
    requires
        0 <= from,
    ensures
        section_end(tmpl, from) == -1 || from + 2 <= section_end(tmpl, from) <= tmpl.len(),
    decreases tmpl.len() - from,
{
    if from + 1 < tmpl.len() && !(tmpl[from] == '}' && tmpl[from + 1] == '@') {
        lemma_section_end(tmpl, from + 1);
    }
}

/// Whether a section of the form `@{..}@` starts at index `i`.
pub open spec fn section_starts(tmpl: Seq<char>, i: int, escape: bool) -> bool {
    0 <= i && i + 1 < tmpl.len() && tmpl[i] == '@' && !escape && tmpl[i + 1] == '{'
}

/// Finds the end of a section.
pub fn find_section_end(tmpl: &str, from: usize) -> (r: Option<usize>)
    ensures
        match r {
            Some(e) => section_end(tmpl@, from as int) == e as int,
            None => section_end(tmpl@, from as int) == -1,
        },
{
    let n = tmpl.unicode_len();
    let mut j: usize = from;
    while j < n && j + 1 < n
        invariant
            n == tmpl@.len(),
            from <= j,
            section_end(tmpl@, from as int) == section_end(tmpl@, j as int),
        decreases n - j,
    {
        if tmpl.get_char(j) == '}' && tmpl.get_char(j + 1) == '@' {
            return Some(j + 2);
        }
        j = j + 1;
    }
    None
}

/// A template with positional arguments.
#[derive(Debug)]
pub struct SimpleFormatter {
    pub tmpl: String,
    pub args: Vec<Rc<Val>>,
}

impl SimpleFormatter {
    /// A formatter for a template and its arguments.
    pub fn new(tmpl: String, args: Vec<Rc<Val>>) -> (r: SimpleFormatter)
        ensures
            r.tmpl == tmpl,
            r.args == args,
    {
        SimpleFormatter { tmpl, args }
    }

    /// The template with each `@` replaced by the text of the next argument.
    pub fn render(&self, pos: &Position) -> (r: Result<String, BuildError>)
        ensures
            text_result_view(r) == simple_render(self.tmpl@, list_view(self.args@), *pos),
    {
        let tmpl = self.tmpl.as_str();
        let n = tmpl.unicode_len();
        let mut buf = String::new();
        let mut escape = false;
        let mut count: usize = 0;
        let mut i: usize = 0;
        while i < n
            invariant
                n == tmpl@.len(),
                tmpl@ == self.tmpl@,
                i <= n,
                count <= self.args.len(),
                simple_render(self.tmpl@, list_view(self.args@), *pos) == simple_render_from(
                    self.tmpl@,
                    list_view(self.args@),
                    i as int,
                    count as int,
                    escape,
                    buf@,
                    *pos,
                ),
            decreases n - i,
        {
            let c = tmpl.get_char(i);
            if c == '@' && !escape {
                if count < self.args.len() {
                    buf.append(self.args[count].to_text().as_str());
                    count = count + 1;
                    escape = false;
                } else {
                    return Err(
                        error_at(
                            ErrorType::FormatError,
                            String::from_str("Too few arguments to string formatter."),
                            pos,
                        ),
                    );
                }
            } else if c == '\\' && !escape {
                escape = true;
            } else {
                let ghost before = buf@;
                buf.append(tmpl.substring_char(i, i + 1));
                assert(buf@ =~= before.push(c));
                escape = false;
            }
            i = i + 1;
        }
        if count != self.args.len() {
            Err(
                error_at(
                    ErrorType::FormatError,
                    String::from_str("Too many arguments to string formatter."),
                    pos,
                ),
            )
        } else {
            Ok(buf)
        }
    }
}

} // verus!
