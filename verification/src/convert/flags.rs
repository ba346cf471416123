//! Conversion of a value into command line flags.

use vstd::prelude::*;
use vstd::string::*;
use std::rc::Rc;
use crate::error::{BuildError, BuildErrorV, ErrorType};
use crate::ir::{Val, ValV, fields_view, list_view, strings_view};
use crate::text::{bool_text, bool_to_string, int_text, int_to_string};

verus! {

/// What a conversion has written: the flags, the floats among them, and a
/// notice for each value that it skipped. A float stands in the text as
/// `<Float>`, and its bit pattern in `floats`, in the order of the text.
#[derive(Debug)]
pub struct FlagOutput {
    pub text: String,
    pub floats: Vec<u64>,
    pub notices: Vec<String>,
}

/// The content of a [`FlagOutput`].
pub ghost struct FlagOutputV {
    pub text: Seq<char>,
    pub floats: Seq<u64>,
    pub notices: Seq<Seq<char>>,
}

impl View for FlagOutput {
    type V = FlagOutputV;

    open spec fn view(&self) -> FlagOutputV {
        FlagOutputV { text: self.text@, floats: self.floats@, notices: strings_view(self.notices@) }
    }
}

impl FlagOutputV {
    /// Nothing written.
    pub open spec fn empty() -> FlagOutputV {
        FlagOutputV { text: Seq::empty(), floats: Seq::empty(), notices: Seq::empty() }
    }

    /// The output with more text.
    pub open spec fn emit(self, text: Seq<char>) -> FlagOutputV {
        FlagOutputV { text: self.text + text, ..self }
    }

    /// The output with one more float.
    pub open spec fn emit_float(self, bits: u64) -> FlagOutputV {
        FlagOutputV { text: self.text + "<Float> "@, floats: self.floats.push(bits), ..self }
    }

    /// The output with one more notice.
    pub open spec fn note(self, text: Seq<char>) -> FlagOutputV {
        FlagOutputV { notices: self.notices.push(text), ..self }
    }
}

impl FlagOutput {
    /// Nothing written.
    pub fn new() -> (r: FlagOutput)
        ensures
            r@ == FlagOutputV::empty(),
    {
        let r = FlagOutput { text: String::new(), floats: Vec::new(), notices: Vec::new() };
        assert(r@.notices =~= Seq::empty());
        r
    }

    /// Writes text.
    pub fn emit(&mut self, text: &str)
        ensures
            final(self)@ == old(self)@.emit(text@),
    {
        self.text.append(text);
    }

    /// Writes a float.
    pub fn emit_float(&mut self, bits: u64)
        ensures
            final(self)@ == old(self)@.emit_float(bits),
    {
        self.text.append("<Float> ");
        self.floats.push(bits);
    }

    /// Leaves a notice.
    pub fn note(&mut self, text: String)
        ensures
            final(self)@ == old(self)@.note(text@),
    {
        self.notices.push(text);
        assert(self@.notices =~= old(self)@.notices.push(text@));
    }
}

/// The flag that a field stands for: a single dash before a name of one
/// character without a prefix, two dashes and the prefix before any other.
pub open spec fn flag_name_text(pfx: Seq<char>, name: Seq<char>) -> Seq<char> {
    if name.len() > 1 || pfx.len() > 0 {
        "--"@ + pfx + name + " "@
    } else {
        "-"@ + name + " "@
    }
}

/// The output after a value is written under a prefix. A tuple adds the
/// flags of its fields in order and a scalar its text; the empty value adds
/// nothing; a list, a function, an environment and a module are skipped with
/// a notice.
pub open spec fn write_spec(sep: Seq<char>, pfx: Seq<char>, v: ValV, out: FlagOutputV)
    -> FlagOutputV
    decreases v, 0nat,
{
    match v {
        ValV::Empty => out,
        ValV::Boolean(b) => out.emit(bool_text(b) + " "@),
        ValV::Float(bits) => out.emit_float(bits),
        ValV::Int(i) => out.emit(int_text(i as int) + " "@),
        ValV::Str(s) => out.emit("'"@ + s + "' "@),
        ValV::List(_) => out.note("Skipping List..."@),
        ValV::Tuple(fs) => fields_spec(sep, pfx, fs, 0, out),
        ValV::Func(_) => out.note("Skipping macro..."@),
        ValV::Env(_) => out.note("Skipping env..."@),
        ValV::Module(_) => out.note("Skipping module..."@),
    }
}

/// The output after the fields of a tuple from index `i` on. An empty field
/// adds its flag alone; a tuple adds the flags of its own fields under a longer
/// prefix; a list adds the flag once for each of its elements that can be
/// written; any other value adds the flag and the value.
pub open spec fn fields_spec(
    sep: Seq<char>,
    pfx: Seq<char>,
    fs: Seq<(Seq<char>, ValV)>,
    i: int,
    out: FlagOutputV,
) -> FlagOutputV
    decreases fs, fs.len() - i,
{
    if 0 <= i < fs.len() {
        let name = fs[i].0;
        fields_spec(
            sep,
            pfx,
            fs,
            i + 1,
            match fs[i].1 {
                ValV::Empty => out.emit(flag_name_text(pfx, name)),
                ValV::Tuple(_) => write_spec(sep, pfx + name + sep, fs[i].1, out),
                ValV::List(items) => list_spec(sep, pfx, name, items, 0, out),
                other => write_spec(sep, pfx, other, out.emit(flag_name_text(pfx, name))),
            },
        )
    } else {
        out
    }
}

/// Whether an element of a list is written as a flag: it is no list, tuple or
/// function.
pub open spec fn is_flag_item(v: ValV) -> bool {
    !(v is List) && !(v is Tuple) && !(v is Func)
}

/// The output after the elements of a list from index `i` on: the flag and
/// the value for each element that can be written, a notice for each other.
pub open spec fn list_spec(
    sep: Seq<char>,
    pfx: Seq<char>,
    name: Seq<char>,
    items: Seq<ValV>,
    i: int,
    out: FlagOutputV,
) -> FlagOutputV
    decreases items, items.len() - i,
{
    if 0 <= i < items.len() {
        list_spec(
            sep,
            pfx,
            name,
            items,
            i + 1,
            if is_flag_item(items[i]) {
                write_spec(sep, pfx, items[i], out.emit(flag_name_text(pfx, name)))
            } else {
                out.note("Skipping non primitive val in list for flag "@ + pfx + name)
            },
        )
    } else {
        out
    }
}

/// The error of a value that is no tuple.
pub open spec fn not_a_tuple_error() -> BuildErrorV {
    BuildErrorV {
        err_type: ErrorType::ConvertError,
        pos: None,
        msg: "Flag outputs must be a tuple"@,
        cause: None,
    }
}

/// The flags of a value, which must be a tuple.
pub open spec fn convert_spec(sep: Seq<char>, v: ValV) -> Result<FlagOutputV, BuildErrorV> {
    if v is Tuple {
        Ok(write_spec(sep, Seq::empty(), v, FlagOutputV::empty()))
    } else {
        Err(not_a_tuple_error())
    }
}

/// Converts a value into command line flags.
#[derive(Debug)]
pub struct FlagConverter {
    pub sep: &'static str,
}

impl FlagConverter {
    /// A converter that separates the names of nested fields with a dot.
    pub fn new() -> (r: FlagConverter)
        ensures
            r.sep@ == "."@,
    {
        FlagConverter { sep: "." }
    }

    /// The same converter with another separator.
    pub fn with_sep(self, sep: &'static str) -> (r: FlagConverter)
        ensures
            r.sep == sep,
    {
        FlagConverter { sep }
    }

    /// Writes the flag of a field.
    pub fn write_flag_name(&self, pfx: &str, name: &str, w: &mut FlagOutput)
        ensures
            final(w)@ == old(w)@.emit(flag_name_text(pfx@, name@)),
    {
        let ghost before = w@;
        if name.unicode_len() > 1 || pfx.unicode_len() > 0 {
            w.emit("--");
            w.emit(pfx);
            w.emit(name);
            w.emit(" ");
            assert(w@.text =~= before.text + ("--"@ + pfx@ + name@ + " "@));
        } else {
            w.emit("-");
            w.emit(name);
            w.emit(" ");
            assert(w@.text =~= before.text + ("-"@ + name@ + " "@));
        }
    }

    fn write_list_from(&self, pfx: &str, name: &str, def: &Vec<Rc<Val>>, i: usize, w: &mut FlagOutput)
        ensures
            final(w)@ == list_spec(self.sep@, pfx@, name@, list_view(def@), i as int, old(w)@),
        decreases *def, def.len() - i,
    {
        if i < def.len() {
            let v = &def[i];
            if !(v.is_list() || v.is_tuple() || v.is_func()) {
                self.write_flag_name(pfx, name, w);
                self.write(pfx, v, w);
            } else {
                w.note(
                    String::from_str("Skipping non primitive val in list for flag ").concat(
                        pfx,
                    ).concat(name),
                );
            }
            self.write_list_from(pfx, name, def, i + 1, w);
        }
    }

    /// Writes the flag once for each element of a list that can be written.
    pub fn write_list_flag(&self, pfx: &str, name: &str, def: &Vec<Rc<Val>>, w: &mut FlagOutput)
        ensures
            final(w)@ == list_spec(self.sep@, pfx@, name@, list_view(def@), 0, old(w)@),
        decreases *def, def.len() + 1,
    {
        self.write_list_from(pfx, name, def, 0, w)
    }

    fn write_fields(&self, pfx: &str, flds: &Vec<(String, Rc<Val>)>, i: usize, w: &mut FlagOutput)
        ensures
            final(w)@ == fields_spec(self.sep@, pfx@, fields_view(flds@), i as int, old(w)@),
        decreases *flds, flds.len() - i,
    {
        if i < flds.len() {
            let name = flds[i].0.as_str();
            let val = &flds[i].1;
            match &**val {
                Val::Empty => {
                    self.write_flag_name(pfx, name, w);
                },
                Val::Tuple(_) => {
                    let new_pfx = String::from_str(pfx).concat(name).concat(self.sep);
                    self.write(new_pfx.as_str(), val, w);
                },
                Val::List(def) => {
                    self.write_list_flag(pfx, name, def, w);
                },
                _ => {
                    self.write_flag_name(pfx, name, w);
                    self.write(pfx, val, w);
                },
            }
            self.write_fields(pfx, flds, i + 1, w);
        }
    }

    /// Writes the flags of a value under a prefix.
    pub fn write(&self, pfx: &str, v: &Val, w: &mut FlagOutput)
        ensures
            final(w)@ == write_spec(self.sep@, pfx@, v@, old(w)@),
        decreases *v, 0nat,
    {
        let ghost before = w@;
        match v {
            Val::Empty => {},
            Val::Boolean(b) => {
                w.emit(bool_to_string(*b).as_str());
                w.emit(" ");
                assert(w@.text =~= before.text + (bool_text(*b) + " "@));
            },
            Val::Float(bits) => {
                w.emit_float(*bits);
            },
            Val::Int(i) => {
                w.emit(int_to_string(*i).as_str());
                w.emit(" ");
                assert(w@.text =~= before.text + (int_text(*i as int) + " "@));
            },
            Val::Str(s) => {
                w.emit("'");
                w.emit(s.as_str());
                w.emit("' ");
                assert(w@.text =~= before.text + ("'"@ + s@ + "' "@));
            },
            Val::List(_) => {
                w.note(String::from_str("Skipping List..."));
            },
            Val::Tuple(flds) => {
                self.write_fields(pfx, flds, 0, w);
            },
            Val::Func(_) => {
                w.note(String::from_str("Skipping macro..."));
            },
            Val::Env(_) => {
                w.note(String::from_str("Skipping env..."));
            },
            Val::Module(_) => {
                w.note(String::from_str("Skipping module..."));
            },
        }
    }

    /// The flags of a value, which must be a tuple.
    pub fn convert(&self, v: &Val) -> (r: Result<FlagOutput, BuildError>)
        ensures
            match r {
                Ok(out) => convert_spec(self.sep@, v@) == Ok::<FlagOutputV, BuildErrorV>(out@),
                Err(e) => convert_spec(self.sep@, v@) == Err::<FlagOutputV, BuildErrorV>(e@),
            },
    {
        if !v.is_tuple() {
            return Err(
                BuildError::new(
                    String::from_str("Flag outputs must be a tuple"),
                    ErrorType::ConvertError,
                ),
            );
        }
        let mut w = FlagOutput::new();
        proof {
            reveal_strlit("");
            assert(""@ =~= Seq::<char>::empty());
        }
        self.write("", v, &mut w);
        Ok(w)
    }

    /// The extension of the files that hold flags.
    pub fn file_ext(&self) -> (r: String)
        ensures
            r@ == "txt"@,
    {
        String::from_str("txt")
    }

    /// What the converter does, in a sentence.
    pub fn description(&self) -> (r: String)
        ensures
            r@ == "Convert ucg Vals into command line flags."@,
    {
        String::from_str("Convert ucg Vals into command line flags.")
    }
}

} // verus!
