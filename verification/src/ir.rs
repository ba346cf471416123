//! The value domain.

use vstd::prelude::*;
use std::rc::Rc;
use crate::ast::{Expression, FuncDef, ModuleDef, Position, PositionedItem, Statement, Token};
use crate::error::{BuildError, BuildErrorV, ErrorType};
use crate::scope::Scope;
use crate::text::{bool_text, bool_to_string, int_text, int_to_string};
use vstd::string::*;

verus! {

/// An evaluated value. A float holds the bit pattern of an IEEE 754 double.
#[derive(Debug, PartialEq)]
pub enum Val {
    Empty,
    Boolean(bool),
    Int(i64),
    Float(u64),
    Str(String),
    List(Vec<Rc<Val>>),
    Tuple(Vec<(String, Rc<Val>)>),
    Env(Vec<(String, String)>),
    Func(FuncDef),
    Module(ModuleDef),
}

/// The mathematical content of a [`Val`].
pub ghost enum ValV {
    Empty,
    Boolean(bool),
    Int(i64),
    Float(u64),
    Str(Seq<char>),
    List(Seq<ValV>),
    Tuple(Seq<(Seq<char>, ValV)>),
    Env(Seq<(Seq<char>, Seq<char>)>),
    Func(FuncV),
    Module(ModuleV),
}

/// The content of a function value.
pub ghost struct FuncV {
    pub scope: Option<Box<ScopeV>>,
    pub argdefs: Seq<Seq<char>>,
    pub fields: Expression,
    pub pos: Position,
}

/// The content of a module value.
pub ghost struct ModuleV {
    pub pos: Position,
    pub arg_set: Seq<(Token, Expression)>,
    pub out_expr: Option<Expression>,
    pub arg_tuple: Option<Box<ValV>>,
    pub statements: Seq<Statement>,
    pub root: Option<Seq<char>>,
}

/// The content of a scope.
pub ghost struct ScopeV {
    pub import_stack: Seq<Seq<char>>,
    pub env: Box<ValV>,
    pub curr_val: Option<Box<ValV>>,
    pub build_output: Seq<(Seq<char>, ValV)>,
    pub search_curr_val: bool,
    pub strict: bool,
    pub import_root: Option<Seq<char>>,
}

/// The contents of a sequence of strings.
pub open spec fn strings_view(s: Seq<String>) -> Seq<Seq<char>> {
    Seq::new(s.len(), |i: int| s[i]@)
}

/// The contents of a sequence of string pairs.
pub open spec fn pairs_view(s: Seq<(String, String)>) -> Seq<(Seq<char>, Seq<char>)> {
    Seq::new(s.len(), |i: int| (s[i].0@, s[i].1@))
}

/// The names of a parameter list.
pub open spec fn names_view(s: Seq<PositionedItem<String>>) -> Seq<Seq<char>> {
    Seq::new(s.len(), |i: int| s[i].val@)
}

/// The content of a value.
pub open spec fn val_view(v: Val) -> ValV
    decreases v,
{
    match v {
        Val::Empty => ValV::Empty,
        Val::Boolean(b) => ValV::Boolean(b),
        Val::Int(i) => ValV::Int(i),
        Val::Float(f) => ValV::Float(f),
        Val::Str(s) => ValV::Str(s@),
        Val::List(l) => ValV::List(list_view(l@)),
        Val::Tuple(l) => ValV::Tuple(fields_view(l@)),
        Val::Env(l) => ValV::Env(pairs_view(l@)),
        Val::Func(def) => ValV::Func(func_view(def)),
        Val::Module(def) => ValV::Module(module_view(def)),
    }
}

/// The contents of a list of values.
pub open spec fn list_view(l: Seq<Rc<Val>>) -> Seq<ValV>
    decreases l,
{
    Seq::new(l.len(), |i: int| if 0 <= i < l.len() { val_view(*l[i]) } else { ValV::Empty })
}

/// The contents of a list of named values.
pub open spec fn fields_view(l: Seq<(String, Rc<Val>)>) -> Seq<(Seq<char>, ValV)>
    decreases l,
{
    Seq::new(
        l.len(),
        |i: int| if 0 <= i < l.len() { (l[i].0@, val_view(*l[i].1)) } else { (Seq::empty(), ValV::Empty) },
    )
}

/// The content of a function.
pub open spec fn func_view(def: FuncDef) -> FuncV
    decreases def,
{
    FuncV {
        scope: match def.scope {
            Some(s) => Some(Box::new(scope_view(s))),
            None => None,
        },
        argdefs: names_view(def.argdefs@),
        fields: *def.fields,
        pos: def.pos,
    }
}

/// The content of a module.
pub open spec fn module_view(def: ModuleDef) -> ModuleV
    decreases def,
{
    ModuleV {
        pos: def.pos,
        arg_set: (*def.arg_set)@,
        out_expr: match def.out_expr {
            Some(e) => Some(*e),
            None => None,
        },
        arg_tuple: match def.arg_tuple {
            Some(t) => Some(Box::new(val_view(*t))),
            None => None,
        },
        statements: (*def.statements)@,
        root: match def.root {
            Some(r) => Some(r@),
            None => None,
        },
    }
}

/// The content of a scope.
pub open spec fn scope_view(s: Scope) -> ScopeV
    decreases s,
{
    ScopeV {
        import_stack: strings_view(s.import_stack@),
        env: Box::new(val_view(*s.env)),
        curr_val: match s.curr_val {
            Some(v) => Some(Box::new(val_view(*v))),
            None => None,
        },
        build_output: fields_view(s.build_output@),
        search_curr_val: s.search_curr_val,
        strict: s.strict,
        import_root: match s.import_root {
            Some(r) => Some(r@),
            None => None,
        },
    }
}

impl View for Val {
    type V = ValV;

    open spec fn view(&self) -> ValV {
        val_view(*self)
    }
}

impl View for Scope {
    type V = ScopeV;

    open spec fn view(&self) -> ScopeV {
        scope_view(*self)
    }
}

/// Another handle on a shared value: `Rc::clone`, which copies the pointer and
/// leaves the value it points to as it is.
#[verifier::external_body]
pub(crate) fn share<T>(r: &Rc<T>) -> (res: Rc<T>)
    ensures
        res == *r,
{
    Rc::clone(r)
}

/// The content of the result of a comparison.
pub open spec fn bool_result_view(r: Result<bool, BuildError>) -> Result<bool, BuildErrorV> {
    match r {
        Ok(b) => Ok(b),
        Err(e) => Err(e@),
    }
}

/// The content of the result of an evaluation.
pub open spec fn result_view(r: Result<Rc<Val>, BuildError>) -> Result<ValV, BuildErrorV> {
    match r {
        Ok(v) => Ok(v@),
        Err(e) => Err(e@),
    }
}

impl ValV {
    /// The name of the value's type, as messages print it.
    pub open spec fn type_label(self) -> Seq<char> {
        match self {
            ValV::Empty => "EmptyValue"@,
            ValV::Boolean(_) => "Boolean"@,
            ValV::Int(_) => "Integer"@,
            ValV::Float(_) => "Float"@,
            ValV::Str(_) => "String"@,
            ValV::List(_) => "List"@,
            ValV::Tuple(_) => "Tuple"@,
            ValV::Func(_) => "Func"@,
            ValV::Env(_) => "Env"@,
            ValV::Module(_) => "Module"@,
        }
    }

    /// The short name of the value's variant.
    pub open spec fn variant_name(self) -> Seq<char> {
        match self {
            ValV::Empty => "Empty"@,
            ValV::Boolean(_) => "Bool"@,
            ValV::Int(_) => "Int"@,
            ValV::Float(_) => "Float"@,
            ValV::Str(_) => "Str"@,
            ValV::List(_) => "List"@,
            ValV::Tuple(_) => "Tuple"@,
            ValV::Func(_) => "Func"@,
            ValV::Env(_) => "Env"@,
            ValV::Module(_) => "Module"@,
        }
    }

    /// Whether two values are of the same variant.
    pub open spec fn type_equal(self, other: ValV) -> bool {
        match (self, other) {
            (ValV::Empty, ValV::Empty) => true,
            (ValV::Boolean(_), ValV::Boolean(_)) => true,
            (ValV::Int(_), ValV::Int(_)) => true,
            (ValV::Float(_), ValV::Float(_)) => true,
            (ValV::Str(_), ValV::Str(_)) => true,
            (ValV::List(_), ValV::List(_)) => true,
            (ValV::Tuple(_), ValV::Tuple(_)) => true,
            (ValV::Func(_), ValV::Func(_)) => true,
            (ValV::Module(_), ValV::Module(_)) => true,
            (ValV::Env(_), ValV::Env(_)) => true,
            _ => false,
        }
    }

    /// The text that a value contributes to a formatted string.
    pub open spec fn text(self) -> Seq<char> {
        match self {
            ValV::Empty => "NULL"@,
            ValV::Boolean(b) => bool_text(b),
            ValV::Int(i) => int_text(i as int),
            ValV::Str(s) => s,
            other => "<"@ + other.type_label() + ">"@,
        }
    }
}

/// The error of comparing what cannot be compared.
pub open spec fn mismatch_error(a: ValV, b: ValV) -> BuildErrorV {
    BuildErrorV {
        err_type: ErrorType::TypeFail,
        pos: None,
        msg: match (a, b) {
            (ValV::Func(_), ValV::Func(_)) => "Func are not comparable"@,
            (ValV::Module(_), ValV::Module(_)) => "Module are not comparable"@,
            _ => "Expected "@ + a.type_label() + " but got ("@ + b.type_label() + ")"@,
        },
        cause: None,
    }
}

/// Deep equality. Values of one variant are compared by content, lists and
/// tuples element by element in order, stopping at the first pair that is not
/// equal. The empty value is unequal to every other value. Values of different
/// variants, two functions, two modules and two environments cannot be compared.
pub open spec fn equal_spec(a: ValV, b: ValV) -> Result<bool, BuildErrorV>
    decreases a, 0nat,
{
    match (a, b) {
        (ValV::Empty, ValV::Empty) => Ok(true),
        (ValV::Int(i), ValV::Int(j)) => Ok(i == j),
        (ValV::Float(i), ValV::Float(j)) => Ok(i == j),
        (ValV::Boolean(i), ValV::Boolean(j)) => Ok(i == j),
        (ValV::Str(s), ValV::Str(t)) => Ok(s == t),
        (ValV::List(l), ValV::List(r)) => if l.len() != r.len() {
            Ok(false)
        } else {
            list_equal_from(l, r, 0)
        },
        (ValV::Tuple(l), ValV::Tuple(r)) => if l.len() != r.len() {
            Ok(false)
        } else {
            fields_equal_from(l, r, 0)
        },
        (ValV::Func(_), ValV::Func(_)) => Err(mismatch_error(a, b)),
        (ValV::Module(_), ValV::Module(_)) => Err(mismatch_error(a, b)),
        (ValV::Empty, _) => Ok(false),
        (_, ValV::Empty) => Ok(false),
        _ => Err(mismatch_error(a, b)),
    }
}

/// Equality of two lists of one length, from index `i` on.
pub open spec fn list_equal_from(l: Seq<ValV>, r: Seq<ValV>, i: int) -> Result<bool, BuildErrorV>
    decreases l, l.len() - i,
{
    if 0 <= i < l.len() && i < r.len() {
        match equal_spec(l[i], r[i]) {
            Ok(true) => list_equal_from(l, r, i + 1),
            other => other,
        }
    } else {
        Ok(true)
    }
}

/// Equality of two field lists of one length, from index `i` on.
pub open spec fn fields_equal_from(
    l: Seq<(Seq<char>, ValV)>,
    r: Seq<(Seq<char>, ValV)>,
    i: int,
) -> Result<bool, BuildErrorV>
    decreases l, l.len() - i,
{
    if 0 <= i < l.len() && i < r.len() {
        if l[i].0 != r[i].0 {
            Ok(false)
        } else {
            match equal_spec(l[i].1, r[i].1) {
                Ok(true) => fields_equal_from(l, r, i + 1),
                other => other,
            }
        }
    } else {
        Ok(true)
    }
}

impl Val {
    /// The name of the value's type, as messages print it.
    pub fn type_label(&self) -> (r: String)
        ensures
            r@ == self@.type_label(),
    {
        match self {
            Val::Empty => String::from_str("EmptyValue"),
            Val::Boolean(_) => String::from_str("Boolean"),
            Val::Int(_) => String::from_str("Integer"),
            Val::Float(_) => String::from_str("Float"),
            Val::Str(_) => String::from_str("String"),
            Val::List(_) => String::from_str("List"),
            Val::Tuple(_) => String::from_str("Tuple"),
            Val::Func(_) => String::from_str("Func"),
            Val::Env(_) => String::from_str("Env"),
            Val::Module(_) => String::from_str("Module"),
        }
    }

    /// The short name of the value's variant.
    pub fn variant_name(&self) -> (r: String)
        ensures
            r@ == self@.variant_name(),
    {
        match self {
            Val::Empty => String::from_str("Empty"),
            Val::Boolean(_) => String::from_str("Bool"),
            Val::Int(_) => String::from_str("Int"),
            Val::Float(_) => String::from_str("Float"),
            Val::Str(_) => String::from_str("Str"),
            Val::List(_) => String::from_str("List"),
            Val::Tuple(_) => String::from_str("Tuple"),
            Val::Func(_) => String::from_str("Func"),
            Val::Env(_) => String::from_str("Env"),
            Val::Module(_) => String::from_str("Module"),
        }
    }

    /// Whether two values are of the same variant.
    pub fn type_equal(&self, target: &Val) -> (r: bool)
        ensures
            r == self@.type_equal(target@),
    {
        match (self, target) {
            (Val::Empty, Val::Empty) => true,
            (Val::Boolean(_), Val::Boolean(_)) => true,
            (Val::Int(_), Val::Int(_)) => true,
            (Val::Float(_), Val::Float(_)) => true,
            (Val::Str(_), Val::Str(_)) => true,
            (Val::List(_), Val::List(_)) => true,
            (Val::Tuple(_), Val::Tuple(_)) => true,
            (Val::Func(_), Val::Func(_)) => true,
            (Val::Module(_), Val::Module(_)) => true,
            (Val::Env(_), Val::Env(_)) => true,
            _ => false,
        }
    }

    /// The text that a value contributes to a formatted string.
    pub fn to_text(&self) -> (r: String)
        ensures
            r@ == self@.text(),
    {
        match self {
            Val::Empty => String::from_str("NULL"),
            Val::Boolean(b) => bool_to_string(*b),
            Val::Int(i) => int_to_string(*i),
            Val::Str(s) => s.clone(),
            _ => String::from_str("<").concat(self.type_label().as_str()).concat(">"),
        }
    }

    /// Whether the value is the empty value.
    pub fn is_empty(&self) -> (r: bool)
        ensures
            r == (self@ is Empty),
    {
        match self {
            Val::Empty => true,
            _ => false,
        }
    }

    /// Whether the value is a float.
    pub fn is_float(&self) -> (r: bool)
        ensures
            r == (self@ is Float),
    {
        match self {
            Val::Float(_) => true,
            _ => false,
        }
    }

    /// Whether the value is an integer.
    pub fn is_int(&self) -> (r: bool)
        ensures
            r == (self@ is Int),
    {
        match self {
            Val::Int(_) => true,
            _ => false,
        }
    }

    /// Whether the value is a string.
    pub fn is_str(&self) -> (r: bool)
        ensures
            r == (self@ is Str),
    {
        match self {
            Val::Str(_) => true,
            _ => false,
        }
    }

    /// Whether the value is a boolean.
    pub fn is_bool(&self) -> (r: bool)
        ensures
            r == (self@ is Boolean),
    {
        match self {
            Val::Boolean(_) => true,
            _ => false,
        }
    }

    /// Whether the value is a tuple.
    pub fn is_tuple(&self) -> (r: bool)
        ensures
            r == (self@ is Tuple),
    {
        match self {
            Val::Tuple(_) => true,
            _ => false,
        }
    }

    /// Whether the value is a list.
    pub fn is_list(&self) -> (r: bool)
        ensures
            r == (self@ is List),
    {
        match self {
            Val::List(_) => true,
            _ => false,
        }
    }

    /// Whether the value is a function.
    pub fn is_func(&self) -> (r: bool)
        ensures
            r == (self@ is Func),
    {
        match self {
            Val::Func(_) => true,
            _ => false,
        }
    }

    /// Whether the value is a module.
    pub fn is_module(&self) -> (r: bool)
        ensures
            r == (self@ is Module),
    {
        match self {
            Val::Module(_) => true,
            _ => false,
        }
    }

    fn mismatch(&self, target: &Val) -> (r: BuildError)
        ensures
            r@ == mismatch_error(self@, target@),
    {
        let msg = match (self, target) {
            (Val::Func(_), Val::Func(_)) => String::from_str("Func are not comparable"),
            (Val::Module(_), Val::Module(_)) => String::from_str("Module are not comparable"),
            _ => String::from_str("Expected ").concat(self.type_label().as_str()).concat(
                " but got (",
            ).concat(target.type_label().as_str()).concat(")"),
        };
        BuildError::new(msg, ErrorType::TypeFail)
    }

    /// Deep equality.
    pub fn equal(&self, target: &Val) -> (r: Result<bool, BuildError>)
        ensures
            bool_result_view(r) == equal_spec(self@, target@),
        decreases *self, 0nat,
    {
        match (self, target) {
            (Val::Empty, Val::Empty) => Ok(true),
            (Val::Int(i), Val::Int(j)) => Ok(*i == *j),
            (Val::Float(i), Val::Float(j)) => Ok(*i == *j),
            (Val::Boolean(i), Val::Boolean(j)) => Ok(*i == *j),
            (Val::Str(s), Val::Str(t)) => Ok(*s == *t),
            (Val::List(l), Val::List(r)) => {
                if l.len() != r.len() {
                    Ok(false)
                } else {
                    Self::list_equal(l, r, 0)
                }
            },
            (Val::Tuple(l), Val::Tuple(r)) => {
                if l.len() != r.len() {
                    Ok(false)
                } else {
                    Self::fields_equal(l, r, 0)
                }
            },
            (Val::Func(_), Val::Func(_)) => Err(self.mismatch(target)),
            (Val::Module(_), Val::Module(_)) => Err(self.mismatch(target)),
            (Val::Empty, _) => Ok(false),
            (_, Val::Empty) => Ok(false),
            _ => Err(self.mismatch(target)),
        }
    }

    fn list_equal(l: &Vec<Rc<Val>>, r: &Vec<Rc<Val>>, i: usize) -> (res: Result<bool, BuildError>)
        requires
            l.len() == r.len(),
        ensures
            bool_result_view(res) == list_equal_from(list_view(l@), list_view(r@), i as int),
        decreases *l, l.len() - i,
    {
        if i < l.len() {
            match l[i].equal(&r[i]) {
                Ok(true) => Self::list_equal(l, r, i + 1),
                other => other,
            }
        } else {
            Ok(true)
        }
    }

    fn fields_equal(l: &Vec<(String, Rc<Val>)>, r: &Vec<(String, Rc<Val>)>, i: usize) -> (res:
        Result<bool, BuildError>)
        requires
            l.len() == r.len(),
        ensures
            bool_result_view(res) == fields_equal_from(fields_view(l@), fields_view(r@), i as int),
        decreases *l, l.len() - i,
    {
        if i < l.len() {
            if l[i].0 != r[i].0 {
                Ok(false)
            } else {
                match l[i].1.equal(&r[i].1) {
                    Ok(true) => Self::fields_equal(l, r, i + 1),
                    other => other,
                }
            }
        } else {
            Ok(true)
        }
    }
}

/// A value written out in full: scalars as they are, a string in quotes, a
/// list in brackets, a tuple in braces with its fields as `name = value`.
pub open spec fn show_spec(v: ValV) -> Seq<char>
    decreases v, 0nat,
{
    match v {
        ValV::Empty => "NULL"@,
        ValV::Boolean(b) => bool_text(b),
        ValV::Int(i) => int_text(i as int),
        ValV::Str(s) => "\""@ + s + "\""@,
        ValV::List(l) => "["@ + show_items(l, 0) + "]"@,
        ValV::Tuple(fs) => "{"@ + show_fields(fs, 0) + "}"@,
        other => "<"@ + other.type_label() + ">"@,
    }
}

/// The elements of a list from index `i` on, written out with commas between them.
pub open spec fn show_items(l: Seq<ValV>, i: int) -> Seq<char>
    decreases l, l.len() - i,
{
    if 0 <= i < l.len() {
        show_spec(l[i]) + (if i + 1 < l.len() {
            ", "@
        } else {
            Seq::empty()
        }) + show_items(l, i + 1)
    } else {
        Seq::empty()
    }
}

/// The fields of a tuple from index `i` on, written out with commas between them.
pub open spec fn show_fields(fs: Seq<(Seq<char>, ValV)>, i: int) -> Seq<char>
    decreases fs, fs.len() - i,
{
    if 0 <= i < fs.len() {
        fs[i].0 + " = "@ + show_spec(fs[i].1) + (if i + 1 < fs.len() {
            ", "@
        } else {
            Seq::empty()
        }) + show_fields(fs, i + 1)
    } else {
        Seq::empty()
    }
}

impl Val {
    /// The value written out in full.
    pub fn show(&self) -> (r: String)
        ensures
            r@ == show_spec(self@),
        decreases *self, 0nat,
    {
        match self {
            Val::Empty => String::from_str("NULL"),
            Val::Boolean(b) => bool_to_string(*b),
            Val::Int(i) => int_to_string(*i),
            Val::Str(s) => String::from_str("\"").concat(s.as_str()).concat("\""),
            Val::List(l) => String::from_str("[").concat(Self::show_list(l, 0).as_str()).concat("]"),
            Val::Tuple(fs) => String::from_str("{").concat(Self::show_tuple(fs, 0).as_str()).concat(
                "}",
            ),
            _ => String::from_str("<").concat(self.type_label().as_str()).concat(">"),
        }
    }

    fn show_list(l: &Vec<Rc<Val>>, i: usize) -> (r: String)
        ensures
            r@ == show_items(list_view(l@), i as int),
        decreases *l, l.len() - i,
    {
        if i < l.len() {
            let head = l[i].show();
            let head = if i + 1 < l.len() {
                head.concat(", ")
            } else {
                let ghost before = head@;
                assert(before + Seq::<char>::empty() =~= before);
                head
            };
            head.concat(Self::show_list(l, i + 1).as_str())
        } else {
            String::new()
        }
    }

    fn show_tuple(fs: &Vec<(String, Rc<Val>)>, i: usize) -> (r: String)
        ensures
            r@ == show_fields(fields_view(fs@), i as int),
        decreases *fs, fs.len() - i,
    {
        if i < fs.len() {
            let head = fs[i].0.clone().concat(" = ").concat(fs[i].1.show().as_str());
            let head = if i + 1 < fs.len() {
                head.concat(", ")
            } else {
                let ghost before = head@;
                assert(before + Seq::<char>::empty() =~= before);
                head
            };
            head.concat(Self::show_tuple(fs, i + 1).as_str())
        } else {
            String::new()
        }
    }
}

} // verus!
