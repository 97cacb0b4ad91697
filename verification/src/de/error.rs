//! The closed taxonomy of conversion failures.

use vstd::prelude::*;

use crate::symbol::InvalidSymbolError;

verus! {

/// The mathematical content of a cast error, over plain sequences and
/// integers; the contracts of the deserialization paths speak about this.
pub enum ErrModel {
    InvalidSymbol(Seq<char>),
    Length(int, int),
    NumericConversion(int, Seq<char>),
    UnexpectedType(Seq<char>),
    Utf8,
}

/// A recoverable conversion failure: the shapes or types of a dynamic
/// value and the requested host type disagree.
///
/// Immutable once constructed, and carrying enough context to render a
/// diagnostic without re-inspecting the original dynamic value. `Utf8` is
/// the one kind that only the byte-level foreign boundary can produce;
/// the typed session model stores text directly, so no conversion in this
/// crate yields it.
#[derive(Clone, Debug, PartialEq, Eq)]
pub enum CastError {
    InvalidSymbol(InvalidSymbolError),
    Length(usize, usize),
    NumericConversion(i64, &'static str),
    UnexpectedType(String),
    Utf8,
}

impl View for CastError {
    type V = ErrModel;

    closed spec fn view(&self) -> ErrModel {
        match self {
            CastError::InvalidSymbol(e) => ErrModel::InvalidSymbol(e@),
            CastError::Length(expected, actual) => ErrModel::Length(
                *expected as int,
                *actual as int,
            ),
            CastError::NumericConversion(value, target) => ErrModel::NumericConversion(
                *value as int,
                target.view(),
            ),
            CastError::UnexpectedType(context) => ErrModel::UnexpectedType(context.view()),
            CastError::Utf8 => ErrModel::Utf8,
        }
    }
}

impl CastError {
    /// An array or tuple arity mismatch.
    pub fn length(expected: usize, actual: usize) -> (e: CastError)
        ensures
            e@ == ErrModel::Length(expected as int, actual as int),
    {
        CastError::Length(expected, actual)
    }

    /// A narrowing numeric conversion that would lose the value.
    pub fn numeric_conversion(value: i64, rust_type: &'static str) -> (e: CastError)
        ensures
            e@ == ErrModel::NumericConversion(value as int, rust_type@),
    {
        CastError::NumericConversion(value, rust_type)
    }

    /// A tag mismatch against the operation that was requested.
    pub fn unexpected_type(context: &str) -> (e: CastError)
        ensures
            e@ == ErrModel::UnexpectedType(context@),
    {
        CastError::UnexpectedType(context.to_owned())
    }

    /// An unrecognized interned name.
    pub fn invalid_symbol(err: InvalidSymbolError) -> (e: CastError)
        ensures
            e@ == ErrModel::InvalidSymbol(err@),
    {
        CastError::InvalidSymbol(err)
    }

    /// Render the failure for a diagnostic.
    pub fn message(&self) -> (r: String)
        ensures
            r@ == match self@ {
                ErrModel::InvalidSymbol(t) => "`"@ + t + "` is not a recognized symbol"@,
                ErrModel::Length(expected, actual) => "incorrect array or tuple length: expected "@
                    + udec_of(expected) + ", found "@ + udec_of(actual),
                ErrModel::NumericConversion(n, t) => "numeric conversion failed: '"@ + dec_of(n)
                    + "' cannot be cast as '"@ + t + "'"@,
                ErrModel::UnexpectedType(t) => "unexpected Rust type: "@ + t,
                ErrModel::Utf8 => "string bytes are not valid text"@,
            },
    {
        match self {
            CastError::InvalidSymbol(err) => err.message(),
            CastError::Length(expected, found) => {
                let mut out = String::from_str("incorrect array or tuple length: expected ");
                out.append(usize_text(*expected).as_str());
                out.append(", found ");
                out.append(usize_text(*found).as_str());
                proof {
                    assert(out@ =~= "incorrect array or tuple length: expected "@ + udec_of(
                        *expected as int,
                    ) + ", found "@ + udec_of(*found as int));
                }
                out
            },
            CastError::NumericConversion(num, ty) => {
                let mut out = String::from_str("numeric conversion failed: '");
                out.append(i64_text(*num).as_str());
                out.append("' cannot be cast as '");
                out.append(ty);
                out.append("'");
                proof {
                    assert(out@ =~= "numeric conversion failed: '"@ + dec_of(*num as int)
                        + "' cannot be cast as '"@ + ty@ + "'"@);
                }
                out
            },
            CastError::UnexpectedType(msg) => {
                let mut out = String::from_str("unexpected Rust type: ");
                out.append(msg.as_str());
                out
            },
            CastError::Utf8 => String::from_str("string bytes are not valid text"),
        }
    }
}

/// The decimal digit characters.
pub open spec fn dec_digit(d: int) -> char {
    if d == 0 {
        '0'
    } else if d == 1 {
        '1'
    } else if d == 2 {
        '2'
    } else if d == 3 {
        '3'
    } else if d == 4 {
        '4'
    } else if d == 5 {
        '5'
    } else if d == 6 {
        '6'
    } else if d == 7 {
        '7'
    } else if d == 8 {
        '8'
    } else {
        '9'
    }
}

/// The decimal rendering of a nonnegative integer, most significant
/// digit first.
pub open spec fn udec_of(n: int) -> Seq<char>
    decreases n,
{
    if n < 10 {
        seq![dec_digit(n)]
    } else {
        udec_of(n / 10).push(dec_digit(n % 10))
    }
}

/// The decimal rendering of an integer: a leading minus sign for a
/// negative value.
pub open spec fn dec_of(n: int) -> Seq<char> {
    if n < 0 {
        seq!['-'] + udec_of(-n)
    } else {
        udec_of(n)
    }
}

/// Relies on i64's `ToString`: the decimal rendering of the value.
#[verifier::external_body]
fn i64_text(n: i64) -> (r: String)
    ensures
        r@ == dec_of(n as int),
{
    n.to_string()
}

/// Relies on usize's `ToString`: the decimal rendering of the value.
#[verifier::external_body]
fn usize_text(n: usize) -> (r: String)
    ensures
        r@ == udec_of(n as int),
{
    n.to_string()
}

} // verus!
