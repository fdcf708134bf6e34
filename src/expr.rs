//! Color transformation expressions such as `darken($primary, 20%)`.
//!
//! An expression is a function name, `(`, comma-separated arguments and `)`.
//! Color arguments are literal tokens or `$name` references into a table of
//! already resolved literal tokens; the result is a canonical hex token.
use vstd::prelude::*;

use crate::blend::{
    darkened, desaturated, greyed, lightened, mixed, saturated, shaded, spun, tinted,
};
use crate::color::{canonical_hex, color_error_text, color_of, parse_color_chars, rgba, ColorError, HexColor};
use crate::table::{find_key, lemma_key_index, lookup, table_view};
use crate::text::{
    append_decimal,
    append_str,
    chars_equal,
    chars_of,
    decimal,
    find_char,
    find_char_in,
    i32_of,
    parse_i32_chars,
    parse_u8_chars,
    slice_chars,
    split_chars,
    split_on,
    string_of,
    trim,
    trim_chars,
    u8_of,
};

verus! {

/// The operations an expression may name.
#[derive(Clone, Copy, Debug, PartialEq, Eq, Structural)]
pub enum Op {
    Darken,
    Lighten,
    Saturate,
    Desaturate,
    Tint,
    Shade,
    Greyscale,
    Spin,
    Mix,
}

/// A problem with an expression, with its text as characters.
pub enum ExprFault {
    NotACall(Seq<char>),
    MissingParen(Seq<char>),
    UnknownFunction(Seq<char>),
    WrongArgCount(Seq<char>, usize, usize),
    UndefinedVariable(Seq<char>),
    InvalidColor(Seq<char>, ColorError),
    ExpectedPercent(Seq<char>),
    InvalidPercent(Seq<char>),
    PercentOutOfRange(u8),
    ExpectedAngle(Seq<char>),
    InvalidAngle(Seq<char>),
}

/// Why an expression could not be evaluated.
#[derive(Clone, Debug, PartialEq, Eq)]
pub enum ExprError {
    /// The text has no `(`.
    NotACall(String),
    /// The text does not end with `)` after its `(`.
    MissingParen(String),
    /// The name before `(` is not a known operation.
    UnknownFunction(String),
    /// The operation takes `expected` arguments and was given `got`.
    WrongArgCount { name: String, expected: usize, got: usize },
    /// A `$name` argument names no variable.
    UndefinedVariable(String),
    /// A color argument is not a valid color token.
    InvalidColor { literal: String, reason: ColorError },
    /// A percentage argument does not end with `%`.
    ExpectedPercent(String),
    /// The digits of a percentage argument do not form a number up to 255.
    InvalidPercent(String),
    /// A percentage above 100.
    PercentOutOfRange(u8),
    /// An angle argument does not end with `deg`.
    ExpectedAngle(String),
    /// The digits of an angle argument do not form an `i32`.
    InvalidAngle(String),
}

impl View for ExprError {
    type V = ExprFault;

    open spec fn view(&self) -> ExprFault {
        match self {
            ExprError::NotACall(s) => ExprFault::NotACall(s@),
            ExprError::MissingParen(s) => ExprFault::MissingParen(s@),
            ExprError::UnknownFunction(s) => ExprFault::UnknownFunction(s@),
            ExprError::WrongArgCount { name, expected, got } => ExprFault::WrongArgCount(
                name@,
                *expected,
                *got,
            ),
            ExprError::UndefinedVariable(s) => ExprFault::UndefinedVariable(s@),
            ExprError::InvalidColor { literal, reason } => ExprFault::InvalidColor(
                literal@,
                *reason,
            ),
            ExprError::ExpectedPercent(s) => ExprFault::ExpectedPercent(s@),
            ExprError::InvalidPercent(s) => ExprFault::InvalidPercent(s@),
            ExprError::PercentOutOfRange(n) => ExprFault::PercentOutOfRange(*n),
            ExprError::ExpectedAngle(s) => ExprFault::ExpectedAngle(s@),
            ExprError::InvalidAngle(s) => ExprFault::InvalidAngle(s@),
        }
    }
}

pub open spec fn text_result(r: Result<String, ExprError>) -> Result<Seq<char>, ExprFault> {
    match r {
        Ok(s) => Ok(s@),
        Err(e) => Err(e@),
    }
}

pub open spec fn args_view(args: Seq<Vec<char>>) -> Seq<Seq<char>> {
    args.map_values(|a: Vec<char>| a@)
}

pub open spec fn op_named(name: Seq<char>) -> Option<Op> {
    if name == seq!['d', 'a', 'r', 'k', 'e', 'n'] {
        Some(Op::Darken)
    } else if name == seq!['l', 'i', 'g', 'h', 't', 'e', 'n'] {
        Some(Op::Lighten)
    } else if name == seq!['s', 'a', 't', 'u', 'r', 'a', 't', 'e'] {
        Some(Op::Saturate)
    } else if name == seq!['d', 'e', 's', 'a', 't', 'u', 'r', 'a', 't', 'e'] {
        Some(Op::Desaturate)
    } else if name == seq!['t', 'i', 'n', 't'] {
        Some(Op::Tint)
    } else if name == seq!['s', 'h', 'a', 'd', 'e'] {
        Some(Op::Shade)
    } else if name == seq!['g', 'r', 'e', 'y', 's', 'c', 'a', 'l', 'e'] || name == seq![
        'g',
        'r',
        'a',
        'y',
        's',
        'c',
        'a',
        'l',
        'e',
    ] {
        Some(Op::Greyscale)
    } else if name == seq!['s', 'p', 'i', 'n'] {
        Some(Op::Spin)
    } else if name == seq!['m', 'i', 'x'] {
        Some(Op::Mix)
    } else {
        None
    }
}

pub open spec fn arity(op: Op) -> usize {
    match op {
        Op::Greyscale => 1,
        Op::Mix => 3,
        _ => 2,
    }
}

/// The result of a percentage operation on an opaque color.
pub open spec fn by_percent(op: Op, c: (u8, u8, u8), p: u8) -> (u8, u8, u8) {
    match op {
        Op::Darken => darkened(c, p),
        Op::Lighten => lightened(c, p),
        Op::Saturate => saturated(c, p),
        Op::Desaturate => desaturated(c, p),
        Op::Tint => tinted(c, p),
        _ => shaded(c, p),
    }
}

pub open spec fn rgb_of(c: HexColor) -> (u8, u8, u8) {
    (c.r, c.g, c.b)
}

pub open spec fn opaque_hex(t: (u8, u8, u8)) -> Seq<char> {
    canonical_hex(rgba(t.0, t.1, t.2, 255))
}

/// A color argument: `$name` takes the variable's token, anything else is
/// read as a token itself.
pub open spec fn color_arg(a: Seq<char>, vars: Seq<(Seq<char>, Seq<char>)>) -> Result<
    HexColor,
    ExprFault,
> {
    if a.len() > 0 && a[0] == '$' {
        match lookup(vars, a.drop_first()) {
            None => Err(ExprFault::UndefinedVariable(a.drop_first())),
            Some(lit) => match color_of(lit) {
                Ok(c) => Ok(c),
                Err(e) => Err(ExprFault::InvalidColor(lit, e)),
            },
        }
    } else {
        match color_of(a) {
            Ok(c) => Ok(c),
            Err(e) => Err(ExprFault::InvalidColor(a, e)),
        }
    }
}

/// A percentage argument: digits, then `%`, at most 100.
pub open spec fn percent_arg(a: Seq<char>) -> Result<u8, ExprFault> {
    if a.len() > 0 && a.last() == '%' {
        let digits = trim(a.drop_last());
        match u8_of(digits) {
            None => Err(ExprFault::InvalidPercent(digits)),
            Some(n) => if n > 100 {
                Err(ExprFault::PercentOutOfRange(n))
            } else {
                Ok(n)
            },
        }
    } else {
        Err(ExprFault::ExpectedPercent(a))
    }
}

/// An angle argument: an integer, then `deg`.
pub open spec fn angle_arg(a: Seq<char>) -> Result<i32, ExprFault> {
    if a.len() >= 3 && a.subrange(a.len() - 3, a.len() as int) == seq!['d', 'e', 'g'] {
        let digits = trim(a.subrange(0, a.len() - 3));
        match i32_of(digits) {
            None => Err(ExprFault::InvalidAngle(digits)),
            Some(n) => Ok(n),
        }
    } else {
        Err(ExprFault::ExpectedAngle(a))
    }
}

/// The result of applying the operation `name` to `args`. The name is
/// checked first, then the number of arguments, then the arguments from
/// left to right.
#[verifier::opaque]
pub open spec fn apply_spec(
    name: Seq<char>,
    args: Seq<Seq<char>>,
    vars: Seq<(Seq<char>, Seq<char>)>,
) -> Result<Seq<char>, ExprFault> {
    match op_named(name) {
        None => Err(ExprFault::UnknownFunction(name)),
        Some(op) => if args.len() != arity(op) {
            Err(ExprFault::WrongArgCount(name, arity(op), args.len() as usize))
        } else {
            match color_arg(args[0], vars) {
                Err(e) => Err(e),
                Ok(c) => match op {
                    Op::Greyscale => Ok(opaque_hex(greyed(rgb_of(c)))),
                    Op::Spin => match angle_arg(args[1]) {
                        Err(e) => Err(e),
                        Ok(d) => Ok(opaque_hex(spun(rgb_of(c), d))),
                    },
                    Op::Mix => match color_arg(args[1], vars) {
                        Err(e) => Err(e),
                        Ok(c2) => match percent_arg(args[2]) {
                            Err(e) => Err(e),
                            Ok(p) => {
                                let m = mixed(rgb_of(c), rgb_of(c2), p);
                                Ok(canonical_hex(rgba(m.0, m.1, m.2, m.3)))
                            },
                        },
                    },
                    _ => match percent_arg(args[1]) {
                        Err(e) => Err(e),
                        Ok(p) => Ok(opaque_hex(by_percent(op, rgb_of(c), p))),
                    },
                },
            }
        },
    }
}

/// A call split into its trimmed name and the text between the first `(`
/// and the final `)`.
pub open spec fn call_parts(s: Seq<char>) -> Result<(Seq<char>, Seq<char>), ExprFault> {
    let i = find_char(s, '(');
    if 0 <= i < s.len() {
        let rest = s.subrange(i + 1, s.len() as int);
        if rest.len() > 0 && rest.last() == ')' {
            Ok((trim(s.subrange(0, i)), rest.drop_last()))
        } else {
            Err(ExprFault::MissingParen(s))
        }
    } else {
        Err(ExprFault::NotACall(s))
    }
}

/// The arguments of a call: its argument text split at commas, each trimmed.
pub open spec fn call_args(text: Seq<char>) -> Seq<Seq<char>> {
    split_on(text, ',').map_values(|a: Seq<char>| trim(a))
}

/// The value of the expression `s` (surrounding whitespace ignored).
pub open spec fn expr_value(s: Seq<char>, vars: Seq<(Seq<char>, Seq<char>)>) -> Result<
    Seq<char>,
    ExprFault,
> {
    match call_parts(trim(s)) {
        Err(e) => Err(e),
        Ok((name, text)) => apply_spec(name, call_args(text), vars),
    }
}

fn op_from_name(name: &[char]) -> (r: Option<Op>)
    ensures
        r == op_named(name@),
{
    let darken = ['d', 'a', 'r', 'k', 'e', 'n'];
    let lighten = ['l', 'i', 'g', 'h', 't', 'e', 'n'];
    let saturate = ['s', 'a', 't', 'u', 'r', 'a', 't', 'e'];
    let desaturate = ['d', 'e', 's', 'a', 't', 'u', 'r', 'a', 't', 'e'];
    let tint = ['t', 'i', 'n', 't'];
    let shade = ['s', 'h', 'a', 'd', 'e'];
    let greyscale = ['g', 'r', 'e', 'y', 's', 'c', 'a', 'l', 'e'];
    let grayscale = ['g', 'r', 'a', 'y', 's', 'c', 'a', 'l', 'e'];
    let spin = ['s', 'p', 'i', 'n'];
    let mix = ['m', 'i', 'x'];
    assert(darken@ == seq!['d', 'a', 'r', 'k', 'e', 'n']);
    assert(lighten@ == seq!['l', 'i', 'g', 'h', 't', 'e', 'n']);
    assert(saturate@ == seq!['s', 'a', 't', 'u', 'r', 'a', 't', 'e']);
    assert(desaturate@ == seq!['d', 'e', 's', 'a', 't', 'u', 'r', 'a', 't', 'e']);
    assert(tint@ == seq!['t', 'i', 'n', 't']);
    assert(shade@ == seq!['s', 'h', 'a', 'd', 'e']);
    assert(greyscale@ == seq!['g', 'r', 'e', 'y', 's', 'c', 'a', 'l', 'e']);
    assert(grayscale@ == seq!['g', 'r', 'a', 'y', 's', 'c', 'a', 'l', 'e']);
    assert(spin@ == seq!['s', 'p', 'i', 'n']);
    assert(mix@ == seq!['m', 'i', 'x']);
    if chars_equal(name, &darken) {
        Some(Op::Darken)
    } else if chars_equal(name, &lighten) {
        Some(Op::Lighten)
    } else if chars_equal(name, &saturate) {
        Some(Op::Saturate)
    } else if chars_equal(name, &desaturate) {
        Some(Op::Desaturate)
    } else if chars_equal(name, &tint) {
        Some(Op::Tint)
    } else if chars_equal(name, &shade) {
        Some(Op::Shade)
    } else if chars_equal(name, &greyscale) || chars_equal(name, &grayscale) {
        Some(Op::Greyscale)
    } else if chars_equal(name, &spin) {
        Some(Op::Spin)
    } else if chars_equal(name, &mix) {
        Some(Op::Mix)
    } else {
        None
    }
}

fn arity_of(op: Op) -> (n: usize)
    ensures
        n == arity(op),
{
    match op {
        Op::Greyscale => 1,
        Op::Mix => 3,
        _ => 2,
    }
}

/// Splits a call into its trimmed name and its argument text.
pub fn parse_call(s: &[char]) -> (r: Result<(Vec<char>, Vec<char>), ExprError>)
    ensures
        match r {
            Ok((name, args)) => call_parts(s@) == Ok::<(Seq<char>, Seq<char>), ExprFault>(
                (name@, args@),
            ),
            Err(e) => call_parts(s@) == Err::<(Seq<char>, Seq<char>), ExprFault>(e@),
        },
{
    let open = match find_char_in(s, '(') {
        Some(i) => i,
        None => return Err(ExprError::NotACall(string_of(s))),
    };
    let n = s.len();
    if open + 1 < n && s[n - 1] == ')' {
        let head = slice_chars(s, 0, open);
        let name = trim_chars(&head);
        let args = slice_chars(s, open + 1, n - 1);
        assert(s@.subrange(open + 1, n as int).drop_last() =~= s@.subrange(
            open + 1,
            n - 1,
        ));
        Ok((name, args))
    } else {
        Err(ExprError::MissingParen(string_of(s)))
    }
}

/// Checks that an operation received `n` arguments.
pub fn expect_args(fn_name: &[char], args: &Vec<Vec<char>>, n: usize) -> (r: Result<(), ExprError>)
    ensures
        r is Ok <==> args@.len() == n,
        r is Err ==> r->Err_0@ == ExprFault::WrongArgCount(fn_name@, n, args@.len() as usize),
{
    if args.len() == n {
        Ok(())
    } else {
        Err(ExprError::WrongArgCount { name: string_of(fn_name), expected: n, got: args.len() })
    }
}

/// Reads a color argument: a literal token or a `$name` reference.
pub fn resolve_color(s: &[char], vars: &Vec<(String, String)>) -> (r: Result<HexColor, ExprError>)
    ensures
        match r {
            Ok(c) => color_arg(s@, table_view(vars@)) == Ok::<HexColor, ExprFault>(c),
            Err(e) => color_arg(s@, table_view(vars@)) == Err::<HexColor, ExprFault>(e@),
        },
{
    if s.len() > 0 && s[0] == '$' {
        let name = slice_chars(s, 1, s.len());
        assert(name@ == s@.drop_first());
        match find_key(vars, &name) {
            None => {
                proof {
                    lemma_key_index(table_view(vars@), name@);
                }
                Err(ExprError::UndefinedVariable(string_of(&name)))
            },
            Some(i) => {
                let lit = chars_of(vars[i].1.as_str());
                assert(lookup(table_view(vars@), name@) == Some(lit@));
                match parse_color_chars(&lit) {
                    Ok(c) => Ok(c),
                    Err(e) => Err(ExprError::InvalidColor { literal: string_of(&lit), reason: e }),
                }
            },
        }
    } else {
        match parse_color_chars(s) {
            Ok(c) => Ok(c),
            Err(e) => Err(ExprError::InvalidColor { literal: string_of(s), reason: e }),
        }
    }
}

/// Reads a percentage argument such as `20%`.
pub fn parse_percent(s: &[char]) -> (r: Result<u8, ExprError>)
    ensures
        match r {
            Ok(p) => percent_arg(s@) == Ok::<u8, ExprFault>(p) && p <= 100,
            Err(e) => percent_arg(s@) == Err::<u8, ExprFault>(e@),
        },
{
    let n = s.len();
    if n == 0 || s[n - 1] != '%' {
        return Err(ExprError::ExpectedPercent(string_of(s)));
    }
    let body = slice_chars(s, 0, n - 1);
    assert(body@ == s@.drop_last());
    let digits = trim_chars(&body);
    match parse_u8_chars(&digits) {
        None => Err(ExprError::InvalidPercent(string_of(&digits))),
        Some(v) => if v > 100 {
            Err(ExprError::PercentOutOfRange(v))
        } else {
            Ok(v)
        },
    }
}

/// Reads an angle argument such as `180deg`.
pub fn parse_angle(s: &[char]) -> (r: Result<i32, ExprError>)
    ensures
        match r {
            Ok(d) => angle_arg(s@) == Ok::<i32, ExprFault>(d),
            Err(e) => angle_arg(s@) == Err::<i32, ExprFault>(e@),
        },
{
    let n = s.len();
    let deg = ['d', 'e', 'g'];
    assert(deg@ == seq!['d', 'e', 'g']);
    if n < 3 {
        return Err(ExprError::ExpectedAngle(string_of(s)));
    }
    let tail = slice_chars(s, n - 3, n);
    if !chars_equal(&tail, &deg) {
        return Err(ExprError::ExpectedAngle(string_of(s)));
    }
    let body = slice_chars(s, 0, n - 3);
    let digits = trim_chars(&body);
    match parse_i32_chars(&digits) {
        None => Err(ExprError::InvalidAngle(string_of(&digits))),
        Some(d) => Ok(d),
    }
}

fn opaque_token(t: (u8, u8, u8)) -> (r: String)
    ensures
        r@ == opaque_hex(t),
{
    HexColor::from_rgba8(t.0, t.1, t.2, 255).to_hex()
}

/// Applies the operation `fn_name` to `args`, reading `$name` arguments
/// from `vars`.
pub fn apply(fn_name: &[char], args: &Vec<Vec<char>>, vars: &Vec<(String, String)>) -> (r: Result<
    String,
    ExprError,
>)
    ensures
        text_result(r) == apply_spec(fn_name@, args_view(args@), table_view(vars@)),
{
    proof {
        reveal(apply_spec);
    }
    let op = match op_from_name(fn_name) {
        Some(op) => op,
        None => return Err(ExprError::UnknownFunction(string_of(fn_name))),
    };
    expect_args(fn_name, args, arity_of(op))?;
    let c = resolve_color(&args[0], vars)?;
    let rgb = (c.r, c.g, c.b);
    match op {
        Op::Greyscale => Ok(opaque_token(crate::blend::greyscale(rgb))),
        Op::Spin => {
            let d = parse_angle(&args[1])?;
            Ok(opaque_token(crate::blend::spin(rgb, d)))
        },
        Op::Mix => {
            let c2 = resolve_color(&args[1], vars)?;
            let p = parse_percent(&args[2])?;
            let m = crate::blend::mix(rgb, (c2.r, c2.g, c2.b), p);
            Ok(HexColor::from_rgba8(m.0, m.1, m.2, m.3).to_hex())
        },
        _ => {
            let p = parse_percent(&args[1])?;
            let t = match op {
                Op::Darken => crate::blend::darken(rgb, p),
                Op::Lighten => crate::blend::lighten(rgb, p),
                Op::Saturate => crate::blend::saturate(rgb, p),
                Op::Desaturate => crate::blend::desaturate(rgb, p),
                Op::Tint => crate::blend::tint(rgb, p),
                _ => crate::blend::shade(rgb, p),
            };
            Ok(opaque_token(t))
        },
    }
}

/// Evaluates an expression held as characters.
pub fn evaluate_chars(s: &[char], vars: &Vec<(String, String)>) -> (r: Result<String, ExprError>)
    ensures
        text_result(r) == expr_value(s@, table_view(vars@)),
{
    let t = trim_chars(s);
    let (name, text) = parse_call(&t)?;
    let pieces = split_chars(&text, ',');
    let mut args: Vec<Vec<char>> = Vec::new();
    let mut i: usize = 0;
    let ghost want = call_args(text@);
    while i < pieces.len()
        invariant
            i <= pieces@.len(),
            pieces@.len() == split_on(text@, ',').len(),
            forall|k: int| 0 <= k < pieces@.len() ==> #[trigger] pieces@[k]@ == split_on(text@, ',')[k],
            want == call_args(text@),
            args@.len() == i,
            forall|k: int| 0 <= k < i ==> #[trigger] args@[k]@ == want[k],
        decreases pieces@.len() - i,
    {
        let a = trim_chars(&pieces[i]);
        args.push(a);
        i = i + 1;
    }
    assert(args_view(args@) =~= want);
    apply(&name, &args, vars)
}

/// Evaluates a color expression such as `darken($primary, 20%)` and returns
/// the resulting canonical hex token. `vars` holds resolved literal tokens.
pub fn evaluate(s: &str, vars: &Vec<(String, String)>) -> (r: Result<String, ExprError>)
    ensures
        text_result(r) == expr_value(s@, table_view(vars@)),
{
    let cs = chars_of(s);
    evaluate_chars(&cs, vars)
}

pub open spec fn quoted(s: Seq<char>) -> Seq<char> {
    "`"@ + s + "`"@
}

pub open spec fn expr_fault_text(f: ExprFault) -> Seq<char> {
    match f {
        ExprFault::NotACall(s) => "expected a function call, got "@ + quoted(s),
        ExprFault::MissingParen(s) => "missing closing `)` in "@ + quoted(s),
        ExprFault::UnknownFunction(n) => "unknown color function "@ + quoted(n),
        ExprFault::WrongArgCount(n, e, g) => quoted(n) + " expects "@ + decimal(e as nat)
            + " argument(s), got "@ + decimal(g as nat),
        ExprFault::UndefinedVariable(n) => "undefined variable "@ + quoted("$"@ + n),
        ExprFault::InvalidColor(l, e) => "invalid color "@ + quoted(l) + ": "@ + color_error_text(e),
        ExprFault::ExpectedPercent(s) => "expected a percentage like `20%`, got "@ + quoted(s),
        ExprFault::InvalidPercent(d) => "invalid percentage value "@ + quoted(d),
        ExprFault::PercentOutOfRange(n) => "percentage must be 0-100, got "@ + quoted(
            decimal(n as nat),
        ),
        ExprFault::ExpectedAngle(s) => "expected an angle like `180deg`, got "@ + quoted(s),
        ExprFault::InvalidAngle(d) => "invalid angle value "@ + quoted(d),
    }
}

fn append_quoted(out: &mut String, s: &str)
    ensures
        final(out)@ == old(out)@ + quoted(s@),
{
    append_str(out, "`");
    append_str(out, s);
    append_str(out, "`");
    assert(old(out)@ + "`"@ + s@ + "`"@ =~= old(out)@ + quoted(s@));
}

impl ExprError {
    /// A sentence describing the error.
    pub fn message(&self) -> (r: String)
        ensures
            r@ == expr_fault_text(self@),
    {
        let mut out = String::new();
        match self {
            ExprError::NotACall(s) => {
                append_str(&mut out, "expected a function call, got ");
                append_quoted(&mut out, s.as_str());
            },
            ExprError::MissingParen(s) => {
                append_str(&mut out, "missing closing `)` in ");
                append_quoted(&mut out, s.as_str());
            },
            ExprError::UnknownFunction(n) => {
                append_str(&mut out, "unknown color function ");
                append_quoted(&mut out, n.as_str());
            },
            ExprError::WrongArgCount { name, expected, got } => {
                append_quoted(&mut out, name.as_str());
                append_str(&mut out, " expects ");
                append_decimal(&mut out, *expected as u64);
                append_str(&mut out, " argument(s), got ");
                append_decimal(&mut out, *got as u64);
                assert(out@ =~= expr_fault_text(self@));
            },
            ExprError::UndefinedVariable(n) => {
                append_str(&mut out, "undefined variable ");
                let mut name = String::new();
                append_str(&mut name, "$");
                append_str(&mut name, n.as_str());
                append_quoted(&mut out, name.as_str());
            },
            ExprError::InvalidColor { literal, reason } => {
                append_str(&mut out, "invalid color ");
                append_quoted(&mut out, literal.as_str());
                append_str(&mut out, ": ");
                let why = reason.message();
                append_str(&mut out, why.as_str());
                assert(out@ =~= expr_fault_text(self@));
            },
            ExprError::ExpectedPercent(s) => {
                append_str(&mut out, "expected a percentage like `20%`, got ");
                append_quoted(&mut out, s.as_str());
            },
            ExprError::InvalidPercent(d) => {
                append_str(&mut out, "invalid percentage value ");
                append_quoted(&mut out, d.as_str());
            },
            ExprError::PercentOutOfRange(n) => {
                append_str(&mut out, "percentage must be 0-100, got ");
                let mut num = String::new();
                append_decimal(&mut num, *n as u64);
                append_quoted(&mut out, num.as_str());
            },
            ExprError::ExpectedAngle(s) => {
                append_str(&mut out, "expected an angle like `180deg`, got ");
                append_quoted(&mut out, s.as_str());
            },
            ExprError::InvalidAngle(d) => {
                append_str(&mut out, "invalid angle value ");
                append_quoted(&mut out, d.as_str());
            },
        }
        out
    }
}

pub open spec fn greyscale_call(a: Seq<char>) -> Seq<char> {
    seq!['g', 'r', 'e', 'y', 's', 'c', 'a', 'l', 'e', '('] + a + seq![')']
}

pub open spec fn grayscale_call(a: Seq<char>) -> Seq<char> {
    seq!['g', 'r', 'a', 'y', 's', 'c', 'a', 'l', 'e', '('] + a + seq![')']
}

proof fn lemma_call_of_one_arg(head: Seq<char>, a: Seq<char>)
    requires
        head.len() == 10,
        head[9] == '(',
        forall|j: int| 0 <= j < 9 ==> 'a' <= #[trigger] head[j] <= 'z',
        forall|j: int| 0 <= j < a.len() ==> #[trigger] a[j] != ',',
    ensures
        trim(head + a + seq![')']) == head + a + seq![')'],
        call_parts(head + a + seq![')']) == Ok::<(Seq<char>, Seq<char>), ExprFault>(
            (head.subrange(0, 9), a),
        ),
        call_args(a) == seq![trim(a)],
{
    let s = head + a + seq![')'];
    crate::text::lemma_find_char(s, '(');
    assert(s[0] == head[0]);
    assert(s[s.len() - 1] == ')');
    assert(crate::text::trim_start(s) == s);
    assert(crate::text::trim_end(s) == s);
    assert forall|j: int| 0 <= j < 9 implies s[j] != '(' by {
        assert(s[j] == head[j]);
    }
    assert(crate::text::first_at(s, '(', 9));
    assert(s.subrange(10, s.len() as int).drop_last() =~= a);
    let name = s.subrange(0, 9);
    assert(name =~= head.subrange(0, 9));
    assert(crate::text::trim_start(name) == name);
    assert(crate::text::trim_end(name) == name);
    crate::text::lemma_find_char(a, ',');
    assert(split_on(a, ',') == seq![a]);
    assert(call_args(a) =~= seq![trim(a)]);
}

proof fn lemma_apply_same_op(
    n1: Seq<char>,
    n2: Seq<char>,
    args: Seq<Seq<char>>,
    vars: Seq<(Seq<char>, Seq<char>)>,
)
    requires
        op_named(n1) is Some,
        op_named(n1) == op_named(n2),
        args.len() == arity(op_named(n1)->0),
    ensures
        apply_spec(n1, args, vars) == apply_spec(n2, args, vars),
{
    reveal(apply_spec);
}

/// `greyscale` and `grayscale` name the same operation: on any single
/// argument (text without a comma) the two calls evaluate alike.
pub proof fn lemma_greyscale_alias(a: Seq<char>, vars: Seq<(Seq<char>, Seq<char>)>)
    requires
        forall|j: int| 0 <= j < a.len() ==> #[trigger] a[j] != ',',
    ensures
        expr_value(greyscale_call(a), vars) == expr_value(grayscale_call(a), vars),
{
    let grey = seq!['g', 'r', 'e', 'y', 's', 'c', 'a', 'l', 'e', '('];
    let gray = seq!['g', 'r', 'a', 'y', 's', 'c', 'a', 'l', 'e', '('];
    lemma_call_of_one_arg(grey, a);
    lemma_call_of_one_arg(gray, a);
    let n1 = grey.subrange(0, 9);
    let n2 = gray.subrange(0, 9);
    assert(n1 =~= seq!['g', 'r', 'e', 'y', 's', 'c', 'a', 'l', 'e']);
    assert(n2 =~= seq!['g', 'r', 'a', 'y', 's', 'c', 'a', 'l', 'e']);
    assert(op_named(n1) == Some(Op::Greyscale));
    assert(op_named(n2) == Some(Op::Greyscale));
    lemma_apply_same_op(n1, n2, seq![trim(a)], vars);
    assert(expr_value(greyscale_call(a), vars) == apply_spec(n1, seq![trim(a)], vars));
    assert(expr_value(grayscale_call(a), vars) == apply_spec(n2, seq![trim(a)], vars));
}

} // verus!
