//! The operations on evaluated values: arithmetic, comparison, matching and
//! the overriding of tuple fields.

use vstd::prelude::*;
use vstd::string::*;
use std::rc::Rc;
use crate::ast::Position;
use crate::bridge::{regex_compiles, regex_is_match, regex_match};
use crate::build::FileBuilder;
use crate::error::{BuildError, BuildErrorV, ErrorType};
use crate::ir::{Val, ValV, equal_spec, fields_view, list_view, result_view, share};
use crate::scope::{clone_fields, field_position, index_of, names_of};
use crate::text::str_eq;

verus! {

/// An error of the given kind at a position.
pub open spec fn err_at(t: ErrorType, msg: Seq<char>, pos: Position) -> BuildErrorV {
    BuildErrorV { err_type: t, pos: Some(pos), msg, cause: None }
}

/// The error of a value that is not of the expected type.
pub open spec fn expected_error(expected: Seq<char>, got: ValV, pos: Position) -> BuildErrorV {
    err_at(
        ErrorType::TypeFail,
        "Expected "@ + expected + " but got ("@ + got.type_label() + ")"@,
        pos,
    )
}

/// The error of an operator that a value does not support.
pub open spec fn unsupported_error(v: ValV, op: Seq<char>, pos: Position) -> BuildErrorV {
    err_at(
        ErrorType::Unsupported,
        v.type_label() + " does not support the '"@ + op + "' operation"@,
        pos,
    )
}

/// The error of an integer operation without a result in range.
pub open spec fn range_error(op: Seq<char>, pos: Position) -> BuildErrorV {
    err_at(
        ErrorType::Unsupported,
        "Integer result of the '"@ + op + "' operation is undefined or out of range"@,
        pos,
    )
}

/// An error of the given kind at a position.
pub fn error_at(t: ErrorType, msg: String, pos: &Position) -> (r: BuildError)
    ensures
        r@ == err_at(t, msg@, *pos),
{
    BuildError::with_pos(msg, t, pos.clone())
}

/// The error of a value that is not of the expected type.
pub fn expected(name: &str, got: &Val, pos: &Position) -> (r: BuildError)
    ensures
        r@ == expected_error(name@, got@, *pos),
{
    error_at(
        ErrorType::TypeFail,
        String::from_str("Expected ").concat(name).concat(" but got (").concat(
            got.type_label().as_str(),
        ).concat(")"),
        pos,
    )
}

/// The error of an operator that a value does not support.
pub fn unsupported(v: &Val, op: &str, pos: &Position) -> (r: BuildError)
    ensures
        r@ == unsupported_error(v@, op@, *pos),
{
    error_at(
        ErrorType::Unsupported,
        v.type_label().concat(" does not support the '").concat(op).concat("' operation"),
        pos,
    )
}

/// The value of an integer operation, or the error of one without a result.
pub open spec fn int_outcome(x: Option<i64>, op: Seq<char>, pos: Position) -> Result<
    ValV,
    BuildErrorV,
> {
    match x {
        Some(i) => Ok(ValV::Int(i)),
        None => Err(range_error(op, pos)),
    }
}

fn int_result(x: Option<i64>, op: &str, pos: &Position) -> (r: Result<Rc<Val>, BuildError>)
    ensures
        result_view(r) == int_outcome(x, op@, *pos),
{
    match x {
        Some(i) => Ok(Rc::new(Val::Int(i))),
        None => Err(
            error_at(
                ErrorType::Unsupported,
                String::from_str("Integer result of the '").concat(op).concat(
                    "' operation is undefined or out of range",
                ),
                pos,
            ),
        ),
    }
}

/// The arithmetic operators that work on numbers alone.
#[derive(Clone, Copy, Debug, PartialEq, Eq, Structural)]
pub enum NumericOp {
    Sub,
    Mul,
    Div,
    Mod,
}

impl NumericOp {
    /// The operator as messages print it.
    pub open spec fn symbol(self) -> Seq<char> {
        match self {
            NumericOp::Sub => "-"@,
            NumericOp::Mul => "*"@,
            NumericOp::Div => "/"@,
            NumericOp::Mod => "modulus"@,
        }
    }

    /// The result on two integers: the checked difference, product, quotient
    /// (rounded toward zero) or remainder (with the sign of the dividend).
    pub open spec fn apply(self, i: i64, j: i64) -> Option<i64> {
        match self {
            NumericOp::Sub => i.checked_sub(j),
            NumericOp::Mul => i.checked_mul(j),
            NumericOp::Div => i.checked_div(j),
            NumericOp::Mod => i.checked_rem(j),
        }
    }

    fn symbol_str(&self) -> (r: &'static str)
        ensures
            r@ == self.symbol(),
    {
        match self {
            NumericOp::Sub => "-",
            NumericOp::Mul => "*",
            NumericOp::Div => "/",
            NumericOp::Mod => "modulus",
        }
    }

    fn compute(&self, i: i64, j: i64) -> (r: Option<i64>)
        ensures
            r == self.apply(i, j),
    {
        match self {
            NumericOp::Sub => i.checked_sub(j),
            NumericOp::Mul => i.checked_mul(j),
            NumericOp::Div => i.checked_div(j),
            NumericOp::Mod => i.checked_rem(j),
        }
    }
}

/// The sum of two values: of two integers, checked; of two strings or two
/// lists, their concatenation. Floats are carried, not computed on.
pub open spec fn add_vals_spec(lpos: Position, rpos: Position, l: ValV, r: ValV) -> Result<
    ValV,
    BuildErrorV,
> {
    match l {
        ValV::Int(i) => match r {
            ValV::Int(j) => int_outcome(i.checked_add(j), "+"@, lpos),
            _ => Err(expected_error("Integer"@, r, rpos)),
        },
        ValV::Float(_) => match r {
            ValV::Float(_) => Err(unsupported_error(l, "+"@, lpos)),
            _ => Err(expected_error("Float"@, r, rpos)),
        },
        ValV::Str(s) => match r {
            ValV::Str(t) => Ok(ValV::Str(s + t)),
            _ => Err(expected_error("String"@, r, rpos)),
        },
        ValV::List(a) => match r {
            ValV::List(b) => Ok(ValV::List(a + b)),
            _ => Err(expected_error("List"@, r, rpos)),
        },
        _ => Err(unsupported_error(l, "+"@, lpos)),
    }
}

/// The result of an arithmetic operator on two numbers of one kind.
pub open spec fn numeric_spec(op: NumericOp, lpos: Position, rpos: Position, l: ValV, r: ValV)
    -> Result<ValV, BuildErrorV> {
    match l {
        ValV::Int(i) => match r {
            ValV::Int(j) => int_outcome(op.apply(i, j), op.symbol(), lpos),
            _ => Err(expected_error("Integer"@, r, rpos)),
        },
        ValV::Float(_) => match r {
            ValV::Float(_) => Err(unsupported_error(l, op.symbol(), lpos)),
            _ => Err(expected_error("Float"@, r, rpos)),
        },
        _ => Err(unsupported_error(l, op.symbol(), lpos)),
    }
}

/// The result of a comparison for equality, with the comparison's error moved
/// to a position.
pub open spec fn deep_equal_spec(pos: Position, l: ValV, r: ValV, negate: bool) -> Result<
    ValV,
    BuildErrorV,
> {
    match equal_spec(l, r) {
        Ok(b) => Ok(ValV::Boolean(b != negate)),
        Err(e) => Err(err_at(e.err_type, e.msg, pos)),
    }
}

/// 2 to the power 63: the sign bit of a double.
pub const SIGN_BIT: u64 = 0x8000_0000_0000_0000;

/// The bit pattern of positive infinity: the largest magnitude that is a number.
pub const INFINITY_BITS: u64 = 0x7ff0_0000_0000_0000;

/// The bits of a double without its sign.
pub open spec fn float_magnitude(bits: u64) -> int {
    if bits >= SIGN_BIT {
        bits - SIGN_BIT
    } else {
        bits as int
    }
}

/// Whether a bit pattern is not a number.
pub open spec fn float_is_nan(bits: u64) -> bool {
    float_magnitude(bits) > INFINITY_BITS
}

/// A number by which doubles that are numbers are ordered as their values are:
/// the magnitude, negated under a sign bit. Both zeros get 0.
pub open spec fn float_key(bits: u64) -> int {
    if bits >= SIGN_BIT {
        -float_magnitude(bits)
    } else {
        float_magnitude(bits)
    }
}

/// Whether one double is less than another. Nothing is less than, or has
/// anything less than, what is not a number.
pub open spec fn float_lt(a: u64, b: u64) -> bool {
    !float_is_nan(a) && !float_is_nan(b) && float_key(a) < float_key(b)
}

/// Whether one double is less than or equal to another.
pub open spec fn float_le(a: u64, b: u64) -> bool {
    !float_is_nan(a) && !float_is_nan(b) && float_key(a) <= float_key(b)
}

fn float_order_key(bits: u64) -> (r: i64)
    ensures
        r == float_key(bits),
{
    if bits >= SIGN_BIT {
        let m: u64 = bits - SIGN_BIT;
        -(m as i64)
    } else {
        bits as i64
    }
}

fn float_nan(bits: u64) -> (r: bool)
    ensures
        r == float_is_nan(bits),
{
    let m: u64 = if bits >= SIGN_BIT {
        bits - SIGN_BIT
    } else {
        bits
    };
    m > INFINITY_BITS
}

/// The orderings that can be asked of two numbers.
#[derive(Clone, Copy, Debug, PartialEq, Eq, Structural)]
pub enum OrderOp {
    Greater,
    Less,
    LessOrEqual,
    GreaterOrEqual,
}

impl OrderOp {
    /// The answer for two integers.
    pub open spec fn ints(self, i: i64, j: i64) -> bool {
        match self {
            OrderOp::Greater => i > j,
            OrderOp::Less => i < j,
            OrderOp::LessOrEqual => i <= j,
            OrderOp::GreaterOrEqual => i >= j,
        }
    }

    /// The answer for two doubles.
    pub open spec fn floats(self, a: u64, b: u64) -> bool {
        match self {
            OrderOp::Greater => float_lt(b, a),
            OrderOp::Less => float_lt(a, b),
            OrderOp::LessOrEqual => float_le(a, b),
            OrderOp::GreaterOrEqual => float_le(b, a),
        }
    }
}

/// The result of an ordering of two numbers of one kind.
pub open spec fn order_spec(op: OrderOp, pos: Position, l: ValV, r: ValV) -> Result<
    ValV,
    BuildErrorV,
> {
    match (l, r) {
        (ValV::Int(i), ValV::Int(j)) => Ok(ValV::Boolean(op.ints(i, j))),
        (ValV::Float(a), ValV::Float(b)) => Ok(ValV::Boolean(op.floats(a, b))),
        _ => Err(expected_error(l.type_label(), r, pos)),
    }
}

/// The result of a match once the pattern was tried: whether it matched, or
/// its negation; an error where the pattern did not compile.
pub open spec fn regex_outcome_spec(
    found: Option<bool>,
    pattern: Seq<char>,
    negate: bool,
    pos: Position,
) -> Result<ValV, BuildErrorV> {
    match found {
        Some(m) => Ok(ValV::Boolean(m != negate)),
        None => Err(err_at(ErrorType::Unsupported, "Invalid regular expression "@ + pattern, pos)),
    }
}

/// The result of matching a text against a pattern. Both must be strings.
pub open spec fn re_match_spec(
    l: ValV,
    lpos: Position,
    r: ValV,
    rpos: Position,
    negate: bool,
) -> Result<ValV, BuildErrorV> {
    match r {
        ValV::Str(pattern) => match l {
            ValV::Str(text) => regex_outcome_spec(
                if regex_compiles(pattern) {
                    Some(regex_is_match(pattern, text))
                } else {
                    None
                },
                pattern,
                negate,
                rpos,
            ),
            _ => Err(
                err_at(
                    ErrorType::TypeFail,
                    "Expected string but got ("@ + l.type_label() + ")"@,
                    lpos,
                ),
            ),
        },
        _ => Err(
            err_at(
                ErrorType::TypeFail,
                "Expected string for regex but got ("@ + r.type_label() + ")"@,
                rpos,
            ),
        ),
    }
}

/// Whether a field may take a new value: the two are of one variant, or one of
/// them is empty.
pub open spec fn may_override(old_val: ValV, new_val: ValV) -> bool {
    old_val.type_equal(new_val) || old_val is Empty || new_val is Empty
}

/// The fields after one override. A name that the fields lack is added at the
/// end. A name that they have keeps its place and takes the new value, which
/// must be of the old one's variant unless one of the two is empty.
pub open spec fn apply_override(
    fields: Seq<(Seq<char>, ValV)>,
    name: Seq<char>,
    v: ValV,
    pos: Position,
) -> Result<Seq<(Seq<char>, ValV)>, BuildErrorV> {
    match index_of(names_of(fields), name, 0) {
        None => Ok(fields.push((name, v))),
        Some(i) => if may_override(fields[i].1, v) {
            Ok(fields.update(i, (name, v)))
        } else {
            Err(
                err_at(
                    ErrorType::TypeFail,
                    "Expected type "@ + fields[i].1.variant_name() + " for field "@ + name
                        + " but got "@ + v.variant_name(),
                    pos,
                ),
            )
        },
    }
}

/// The index of the first name that also occurs before it, from `i` on.
pub open spec fn first_duplicate(names: Seq<Seq<char>>, i: int) -> Option<int>
    decreases names.len() - i,
{
    if 0 <= i < names.len() {
        if index_of(names, names[i], 0) != Some(i) {
            Some(i)
        } else {
            first_duplicate(names, i + 1)
        }
    } else {
        None
    }
}

/// The error of a tuple that has a field twice.
pub open spec fn duplicate_error(name: Seq<char>) -> BuildErrorV {
    BuildErrorV {
        err_type: ErrorType::TypeFail,
        pos: None,
        msg: "Duplicate field: "@ + name + " in tuple"@,
        cause: None,
    }
}

/// The fields of a tuple that is to be copied, or an error where a name occurs
/// twice among them.
pub open spec fn base_fields_spec(fields: Seq<(Seq<char>, ValV)>) -> Result<
    Seq<(Seq<char>, ValV)>,
    BuildErrorV,
> {
    match first_duplicate(names_of(fields), 0) {
        Some(i) => Err(duplicate_error(fields[i].0)),
        None => Ok(fields),
    }
}

/// The content of the result of an operation on fields.
pub open spec fn fields_result_view(r: Result<Vec<(String, Rc<Val>)>, BuildError>) -> Result<
    Seq<(Seq<char>, ValV)>,
    BuildErrorV,
> {
    match r {
        Ok(fs) => Ok(fields_view(fs@)),
        Err(e) => Err(e@),
    }
}

/// The test that a type name asks of a value, if it is a type name.
pub open spec fn type_test(typ: Seq<char>, v: ValV) -> Option<bool> {
    if typ == "str"@ {
        Some(v is Str)
    } else if typ == "bool"@ {
        Some(v is Boolean)
    } else if typ == "null"@ {
        Some(v is Empty)
    } else if typ == "int"@ {
        Some(v is Int)
    } else if typ == "float"@ {
        Some(v is Float)
    } else if typ == "tuple"@ {
        Some(v is Tuple)
    } else if typ == "list"@ {
        Some(v is List)
    } else if typ == "func"@ {
        Some(v is Func)
    } else if typ == "module"@ {
        Some(v is Module)
    } else {
        None
    }
}

/// The test that a type name asks of a value, if it is a type name.
pub fn test_type(typ: &str, v: &Val) -> (r: Option<bool>)
    ensures
        r == type_test(typ@, v@),
{
    if str_eq(typ, "str") {
        Some(v.is_str())
    } else if str_eq(typ, "bool") {
        Some(v.is_bool())
    } else if str_eq(typ, "null") {
        Some(v.is_empty())
    } else if str_eq(typ, "int") {
        Some(v.is_int())
    } else if str_eq(typ, "float") {
        Some(v.is_float())
    } else if str_eq(typ, "tuple") {
        Some(v.is_tuple())
    } else if str_eq(typ, "list") {
        Some(v.is_list())
    } else if str_eq(typ, "func") {
        Some(v.is_func())
    } else if str_eq(typ, "module") {
        Some(v.is_module())
    } else {
        None
    }
}

/// The two lists one after the other, sharing their elements.
pub fn concat_lists(a: &Vec<Rc<Val>>, b: &Vec<Rc<Val>>) -> (r: Vec<Rc<Val>>)
    ensures
        r@ == a@ + b@,
{
    let mut out: Vec<Rc<Val>> = Vec::new();
    let mut i: usize = 0;
    while i < a.len()
        invariant
            i <= a.len(),
            out@ == a@.take(i as int),
        decreases a.len() - i,
    {
        out.push(share(&a[i]));
        assert(out@ =~= a@.take(i + 1));
        i = i + 1;
    }
    assert(a@.take(a.len() as int) =~= a@);
    let mut j: usize = 0;
    while j < b.len()
        invariant
            j <= b.len(),
            out@ == a@ + b@.take(j as int),
        decreases b.len() - j,
    {
        out.push(share(&b[j]));
        assert(out@ =~= a@ + b@.take(j + 1));
        j = j + 1;
    }
    assert(b@.take(b.len() as int) =~= b@);
    out
}

/// The result of a match once the pattern was tried.
pub fn regex_outcome(found: Option<bool>, pattern: &str, negate: bool, pos: &Position) -> (r:
    Result<Rc<Val>, BuildError>)
    ensures
        result_view(r) == regex_outcome_spec(found, pattern@, negate, *pos),
{
    match found {
        Some(m) => Ok(Rc::new(Val::Boolean(m != negate))),
        None => Err(
            error_at(
                ErrorType::Unsupported,
                String::from_str("Invalid regular expression ").concat(pattern),
                pos,
            ),
        ),
    }
}

/// The fields of a tuple that is to be copied.
pub fn base_fields(src_fields: &Vec<(String, Rc<Val>)>) -> (r: Result<
    Vec<(String, Rc<Val>)>,
    BuildError,
>)
    ensures
        fields_result_view(r) == base_fields_spec(fields_view(src_fields@)),
{
    let ghost names = names_of(fields_view(src_fields@));
    let mut i: usize = 0;
    while i < src_fields.len()
        invariant
            i <= src_fields.len(),
            names == names_of(fields_view(src_fields@)),
            first_duplicate(names, 0) == first_duplicate(names, i as int),
        decreases src_fields.len() - i,
    {
        let first = field_position(src_fields[i].0.as_str(), src_fields);
        let dup = match first {
            Some(k) => k != i,
            None => true,
        };
        if dup {
            return Err(
                BuildError::new(
                    String::from_str("Duplicate field: ").concat(src_fields[i].0.as_str()).concat(
                        " in tuple",
                    ),
                    ErrorType::TypeFail,
                ),
            );
        }
        i = i + 1;
    }
    Ok(clone_fields(src_fields))
}

/// Applies one override to the fields.
pub fn override_field(
    fields: Vec<(String, Rc<Val>)>,
    name: &str,
    v: Rc<Val>,
    pos: &Position,
) -> (r: Result<Vec<(String, Rc<Val>)>, BuildError>)
    ensures
        fields_result_view(r) == apply_override(fields_view(fields@), name@, v@, *pos),
{
    let mut fields = fields;
    let ghost before = fields_view(fields@);
    match field_position(name, &fields) {
        None => {
            fields.push((String::from_str(name), v));
            assert(fields_view(fields@) =~= before.push((name@, v@)));
            Ok(fields)
        },
        Some(i) => {
            let old_val = share(&fields[i].1);
            if old_val.type_equal(&v) || old_val.is_empty() || v.is_empty() {
                fields.set(i, (String::from_str(name), v));
                assert(fields_view(fields@) =~= before.update(i as int, (name@, v@)));
                Ok(fields)
            } else {
                Err(
                    error_at(
                        ErrorType::TypeFail,
                        String::from_str("Expected type ").concat(
                            old_val.variant_name().as_str(),
                        ).concat(" for field ").concat(name).concat(" but got ").concat(
                            v.variant_name().as_str(),
                        ),
                        pos,
                    ),
                )
            }
        },
    }
}

impl FileBuilder {
    /// The sum of two values.
    pub fn add_vals(&self, lpos: &Position, rpos: &Position, left: Rc<Val>, right: Rc<Val>) -> (r:
        Result<Rc<Val>, BuildError>)
        ensures
            result_view(r) == add_vals_spec(*lpos, *rpos, left@, right@),
    {
        match &*left {
            Val::Int(i) => match &*right {
                Val::Int(j) => int_result(i.checked_add(*j), "+", lpos),
                _ => Err(expected("Integer", &right, rpos)),
            },
            Val::Float(_) => match &*right {
                Val::Float(_) => Err(unsupported(&left, "+", lpos)),
                _ => Err(expected("Float", &right, rpos)),
            },
            Val::Str(s) => match &*right {
                Val::Str(t) => Ok(Rc::new(Val::Str(s.clone().concat(t.as_str())))),
                _ => Err(expected("String", &right, rpos)),
            },
            Val::List(a) => match &*right {
                Val::List(b) => {
                    let joined = concat_lists(a, b);
                    assert(list_view(joined@) =~= list_view(a@) + list_view(b@));
                    Ok(Rc::new(Val::List(joined)))
                },
                _ => Err(expected("List", &right, rpos)),
            },
            _ => Err(unsupported(&left, "+", lpos)),
        }
    }

    fn numeric(
        &self,
        op: NumericOp,
        lpos: &Position,
        rpos: &Position,
        left: Rc<Val>,
        right: Rc<Val>,
    ) -> (r: Result<Rc<Val>, BuildError>)
        ensures
            result_view(r) == numeric_spec(op, *lpos, *rpos, left@, right@),
    {
        match &*left {
            Val::Int(i) => match &*right {
                Val::Int(j) => int_result(op.compute(*i, *j), op.symbol_str(), lpos),
                _ => Err(expected("Integer", &right, rpos)),
            },
            Val::Float(_) => match &*right {
                Val::Float(_) => Err(unsupported(&left, op.symbol_str(), lpos)),
                _ => Err(expected("Float", &right, rpos)),
            },
            _ => Err(unsupported(&left, op.symbol_str(), lpos)),
        }
    }

    /// The difference of two numbers.
    pub fn subtract_vals(
        &self,
        lpos: &Position,
        rpos: &Position,
        left: Rc<Val>,
        right: Rc<Val>,
    ) -> (r: Result<Rc<Val>, BuildError>)
        ensures
            result_view(r) == numeric_spec(NumericOp::Sub, *lpos, *rpos, left@, right@),
    {
        self.numeric(NumericOp::Sub, lpos, rpos, left, right)
    }

    /// The product of two numbers.
    pub fn multiply_vals(
        &self,
        lpos: &Position,
        rpos: &Position,
        left: Rc<Val>,
        right: Rc<Val>,
    ) -> (r: Result<Rc<Val>, BuildError>)
        ensures
            result_view(r) == numeric_spec(NumericOp::Mul, *lpos, *rpos, left@, right@),
    {
        self.numeric(NumericOp::Mul, lpos, rpos, left, right)
    }

    /// The remainder of two numbers.
    pub fn mod_vals(&self, lpos: &Position, rpos: &Position, left: Rc<Val>, right: Rc<Val>) -> (r:
        Result<Rc<Val>, BuildError>)
        ensures
            result_view(r) == numeric_spec(NumericOp::Mod, *lpos, *rpos, left@, right@),
    {
        self.numeric(NumericOp::Mod, lpos, rpos, left, right)
    }

    /// The quotient of two numbers.
    pub fn divide_vals(
        &self,
        lpos: &Position,
        rpos: &Position,
        left: Rc<Val>,
        right: Rc<Val>,
    ) -> (r: Result<Rc<Val>, BuildError>)
        ensures
            result_view(r) == numeric_spec(NumericOp::Div, *lpos, *rpos, left@, right@),
    {
        self.numeric(NumericOp::Div, lpos, rpos, left, right)
    }

    fn deep_equal(&self, pos: &Position, left: Rc<Val>, right: Rc<Val>, negate: bool) -> (r: Result<
        Rc<Val>,
        BuildError,
    >)
        ensures
            result_view(r) == deep_equal_spec(*pos, left@, right@, negate),
    {
        match left.equal(&right) {
            Ok(b) => Ok(Rc::new(Val::Boolean(b != negate))),
            Err(e) => Err(BuildError::with_pos(e.msg, e.err_type, pos.clone())),
        }
    }

    /// Whether two values are deeply equal.
    pub fn do_deep_equal(&self, pos: &Position, left: Rc<Val>, right: Rc<Val>) -> (r: Result<
        Rc<Val>,
        BuildError,
    >)
        ensures
            result_view(r) == deep_equal_spec(*pos, left@, right@, false),
    {
        self.deep_equal(pos, left, right, false)
    }

    /// Whether two values are not deeply equal.
    pub fn do_not_deep_equal(&self, pos: &Position, left: Rc<Val>, right: Rc<Val>) -> (r: Result<
        Rc<Val>,
        BuildError,
    >)
        ensures
            result_view(r) == deep_equal_spec(*pos, left@, right@, true),
    {
        self.deep_equal(pos, left, right, true)
    }

    fn order(&self, op: OrderOp, pos: &Position, left: Rc<Val>, right: Rc<Val>) -> (r: Result<
        Rc<Val>,
        BuildError,
    >)
        ensures
            result_view(r) == order_spec(op, *pos, left@, right@),
    {
        match (&*left, &*right) {
            (Val::Int(i), Val::Int(j)) => {
                let b = match op {
                    OrderOp::Greater => *i > *j,
                    OrderOp::Less => *i < *j,
                    OrderOp::LessOrEqual => *i <= *j,
                    OrderOp::GreaterOrEqual => *i >= *j,
                };
                Ok(Rc::new(Val::Boolean(b)))
            },
            (Val::Float(a), Val::Float(b)) => {
                let numbers = !float_nan(*a) && !float_nan(*b);
                let ka = float_order_key(*a);
                let kb = float_order_key(*b);
                let b = match op {
                    OrderOp::Greater => numbers && kb < ka,
                    OrderOp::Less => numbers && ka < kb,
                    OrderOp::LessOrEqual => numbers && ka <= kb,
                    OrderOp::GreaterOrEqual => numbers && kb <= ka,
                };
                Ok(Rc::new(Val::Boolean(b)))
            },
            _ => Err(expected(left.type_label().as_str(), &right, pos)),
        }
    }

    /// Whether the left number is greater than the right.
    pub fn do_gt(&self, pos: &Position, left: Rc<Val>, right: Rc<Val>) -> (r: Result<
        Rc<Val>,
        BuildError,
    >)
        ensures
            result_view(r) == order_spec(OrderOp::Greater, *pos, left@, right@),
    {
        self.order(OrderOp::Greater, pos, left, right)
    }

    /// Whether the left number is less than the right.
    pub fn do_lt(&self, pos: &Position, left: Rc<Val>, right: Rc<Val>) -> (r: Result<
        Rc<Val>,
        BuildError,
    >)
        ensures
            result_view(r) == order_spec(OrderOp::Less, *pos, left@, right@),
    {
        self.order(OrderOp::Less, pos, left, right)
    }

    /// Whether the left number is less than or equal to the right.
    pub fn do_ltequal(&self, pos: &Position, left: Rc<Val>, right: Rc<Val>) -> (r: Result<
        Rc<Val>,
        BuildError,
    >)
        ensures
            result_view(r) == order_spec(OrderOp::LessOrEqual, *pos, left@, right@),
    {
        self.order(OrderOp::LessOrEqual, pos, left, right)
    }

    /// Whether the left number is greater than or equal to the right.
    pub fn do_gtequal(&self, pos: &Position, left: Rc<Val>, right: Rc<Val>) -> (r: Result<
        Rc<Val>,
        BuildError,
    >)
        ensures
            result_view(r) == order_spec(OrderOp::GreaterOrEqual, *pos, left@, right@),
    {
        self.order(OrderOp::GreaterOrEqual, pos, left, right)
    }

    /// Whether a text matches a pattern, or does not where `negate` is set.
    pub fn eval_re_match(
        &self,
        left: Rc<Val>,
        left_pos: &Position,
        right: Rc<Val>,
        right_pos: &Position,
        negate: bool,
    ) -> (r: Result<Rc<Val>, BuildError>)
        ensures
            result_view(r) == re_match_spec(left@, *left_pos, right@, *right_pos, negate),
    {
        match &*right {
            Val::Str(pattern) => match &*left {
                Val::Str(text) => {
                    let found = match regex_match(pattern.as_str(), text.as_str()) {
                        Ok(m) => Some(m),
                        Err(_) => None,
                    };
                    regex_outcome(found, pattern.as_str(), negate, right_pos)
                },
                _ => Err(
                    error_at(
                        ErrorType::TypeFail,
                        String::from_str("Expected string but got (").concat(
                            left.type_label().as_str(),
                        ).concat(")"),
                        left_pos,
                    ),
                ),
            },
            _ => Err(
                error_at(
                    ErrorType::TypeFail,
                    String::from_str("Expected string for regex but got (").concat(
                        right.type_label().as_str(),
                    ).concat(")"),
                    right_pos,
                ),
            ),
        }
    }
}

} // verus!
