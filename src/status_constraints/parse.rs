use vstd::prelude::*;

use super::{ConstraintType, StatusConstraint};

verus! {

/// Which end of the status code range a literal fell off.
#[derive(Clone, Copy, Debug, PartialEq, Eq, Structural)]
pub enum OutOfRange {
    TooHigh,
    TooLow,
}

/// Why a constraint expression was rejected.
#[derive(Debug, PartialEq, Eq)]
pub enum ParseStatusConstraintsError {
    /// The literal is a well-formed integer that does not fit a status code.
    IntegerOutOfRange { literal: String, direction: OutOfRange },
    /// The character at the start of `input` is none of `allowed_tokens`.
    UnexpectedToken { allowed_tokens: String, input: String },
}

/// The error as plain sequences of characters.
pub enum ParseFailure {
    IntegerOutOfRange { literal: Seq<char>, direction: OutOfRange },
    UnexpectedToken { allowed_tokens: Seq<char>, input: Seq<char> },
}

impl View for ParseStatusConstraintsError {
    type V = ParseFailure;

    open spec fn view(&self) -> ParseFailure {
        match self {
            ParseStatusConstraintsError::IntegerOutOfRange { literal, direction } => {
                ParseFailure::IntegerOutOfRange { literal: literal@, direction: *direction }
            },
            ParseStatusConstraintsError::UnexpectedToken { allowed_tokens, input } => {
                ParseFailure::UnexpectedToken { allowed_tokens: allowed_tokens@, input: input@ }
            },
        }
    }
}

/// The human-readable text of a failure.
pub open spec fn failure_message(f: ParseFailure) -> Seq<char> {
    match f {
        ParseFailure::IntegerOutOfRange { literal, direction } => {
            "Failed to parse '"@ + literal + match direction {
                OutOfRange::TooHigh => "' as a status code. Integer too high."@,
                OutOfRange::TooLow => "' as a status code. Integer too low."@,
            }
        },
        ParseFailure::UnexpectedToken { allowed_tokens, input } => {
            "Expected one of '"@ + allowed_tokens + "', got: "@ + input
        },
    }
}

impl ParseStatusConstraintsError {
    /// The message shown to the user for this error.
    pub fn message(&self) -> (r: String)
        ensures
            r@ == failure_message(self@),
    {
        let mut m = String::new();
        match self {
            ParseStatusConstraintsError::IntegerOutOfRange { literal, direction } => {
                m.append("Failed to parse '");
                m.append(literal.as_str());
                match direction {
                    OutOfRange::TooHigh => m.append("' as a status code. Integer too high."),
                    OutOfRange::TooLow => m.append("' as a status code. Integer too low."),
                }
            },
            ParseStatusConstraintsError::UnexpectedToken { allowed_tokens, input } => {
                m.append("Expected one of '");
                m.append(allowed_tokens.as_str());
                m.append("', got: ");
                m.append(input.as_str());
            },
        }
        m
    }
}

pub open spec fn is_space(c: char) -> bool {
    c == ' ' || c == '\t'
}

pub open spec fn is_digit(c: char) -> bool {
    '0' <= c && c <= '9'
}

/// The first position at or after `i` that holds no space or tab.
pub open spec fn skip_spaces(s: Seq<char>, i: int) -> int
    decreases s.len() - i,
{
    if 0 <= i < s.len() && is_space(s[i]) {
        skip_spaces(s, i + 1)
    } else {
        i
    }
}

/// The first position at or after `i` that holds no decimal digit.
pub open spec fn skip_digits(s: Seq<char>, i: int) -> int
    decreases s.len() - i,
{
    if 0 <= i < s.len() && is_digit(s[i]) {
        skip_digits(s, i + 1)
    } else {
        i
    }
}

pub open spec fn digit_value(c: char) -> int {
    (c as u32) as int - ('0' as u32) as int
}

/// The number that a sequence of decimal digits denotes.
pub open spec fn digits_value(ds: Seq<char>) -> int
    decreases ds.len(),
{
    if ds.len() == 0 {
        0
    } else {
        digits_value(ds.drop_last()) * 10 + digit_value(ds.last())
    }
}

/// Every token that may begin a constraint, in the order in which they may occur.
pub open spec fn all_tokens() -> Seq<char> {
    seq!['!', '>', '<', '=', '-', '0', '1', '2', '3', '4', '5', '6', '7', '8', '9']
}

/// The tokens still legal once the given parts of a constraint have been read: those
/// that may follow the last part read.
pub open spec fn allowed_tokens(negated: bool, operator: bool, equal: bool, minus: bool) -> Seq<
    char,
> {
    let from = if minus {
        5int
    } else if equal {
        4int
    } else if operator {
        3int
    } else if negated {
        1int
    } else {
        0int
    };
    all_tokens().subrange(from, 15)
}

/// The comparison named by an optional `>` or `<` and an optional `=`.
pub open spec fn constraint_type(operator: Option<char>, equal: bool) -> ConstraintType {
    match operator {
        Some(op) => if op == '>' {
            if equal {
                ConstraintType::Gte
            } else {
                ConstraintType::Gt
            }
        } else {
            if equal {
                ConstraintType::Lte
            } else {
                ConstraintType::Lt
            }
        },
        None => ConstraintType::Eq,
    }
}

/// Reading one constraint at position `i` of `s`:
/// spaces, an optional `!`, spaces, an optional `>` or `<`, an optional `=`, spaces,
/// an optional `-`, one or more digits, and trailing spaces.
/// On success, the constraint and the position after its trailing spaces.
pub open spec fn atom_at(s: Seq<char>, i: int) -> Result<(StatusConstraint, int), ParseFailure> {
    let a = skip_spaces(s, i);
    let negated = 0 <= a < s.len() && s[a] == '!';
    let b = skip_spaces(s, if negated { a + 1 } else { a });
    let operator = 0 <= b < s.len() && (s[b] == '>' || s[b] == '<');
    let c = if operator { b + 1 } else { b };
    let equal = 0 <= c < s.len() && s[c] == '=';
    let d = skip_spaces(s, if equal { c + 1 } else { c });
    let minus = 0 <= d < s.len() && s[d] == '-';
    let e = if minus { d + 1 } else { d };
    let f = skip_digits(s, e);
    if f == e {
        Err(
            ParseFailure::UnexpectedToken {
                allowed_tokens: allowed_tokens(negated, operator, equal, minus),
                input: s.subrange(e, s.len() as int),
            },
        )
    } else {
        let magnitude = digits_value(s.subrange(e, f));
        let value = if minus { -magnitude } else { magnitude };
        if value > i32::MAX {
            Err(
                ParseFailure::IntegerOutOfRange {
                    literal: s.subrange(d, f),
                    direction: OutOfRange::TooHigh,
                },
            )
        } else if value < i32::MIN {
            Err(
                ParseFailure::IntegerOutOfRange {
                    literal: s.subrange(d, f),
                    direction: OutOfRange::TooLow,
                },
            )
        } else {
            Ok(
                (
                    StatusConstraint {
                        typ: constraint_type(if operator { Some(s[b]) } else { None }, equal),
                        code: value as i32,
                        negated,
                    },
                    skip_spaces(s, f),
                ),
            )
        }
    }
}

/// Reading constraints from position `i` up to the end of `s`, one at least.
pub open spec fn group_from(s: Seq<char>, i: int) -> Result<Seq<StatusConstraint>, ParseFailure>
    decreases s.len() - i,
{
    match atom_at(s, i) {
        Err(e) => Err(e),
        Ok((c, j)) => {
            if j < s.len() {
                proof {
                    lemma_atom_advances(s, i);
                }
                match group_from(s, j) {
                    Ok(rest) => Ok(seq![c] + rest),
                    Err(e) => Err(e),
                }
            } else {
                Ok(seq![c])
            }
        },
    }
}

/// What a constraint expression denotes: the whole of `s` read as a group of constraints.
pub open spec fn parse_spec(s: Seq<char>) -> Result<Seq<StatusConstraint>, ParseFailure> {
    group_from(s, 0)
}

/// A constraint expression that parses lists at least one constraint, and the empty
/// text is rejected: an empty group never comes out of the parser.
pub proof fn lemma_parsed_group_nonempty(s: Seq<char>)
    ensures
        parse_spec(s) is Ok ==> parse_spec(s)->Ok_0.len() >= 1,
        s.len() == 0 ==> parse_spec(s) is Err,
{
    match atom_at(s, 0) {
        Ok((c, j)) => {
            if j < s.len() {
                match group_from(s, j) {
                    Ok(rest) => {
                        assert((seq![c] + rest).len() >= 1);
                    },
                    Err(_) => {},
                }
            }
        },
        Err(_) => {},
    }
}

pub proof fn lemma_skip_spaces_bounds(s: Seq<char>, i: int)
    ensures
        skip_spaces(s, i) >= i,
        0 <= i <= s.len() ==> skip_spaces(s, i) <= s.len(),
    decreases s.len() - i,
{
    if 0 <= i < s.len() && is_space(s[i]) {
        lemma_skip_spaces_bounds(s, i + 1);
    }
}

pub proof fn lemma_skip_digits_bounds(s: Seq<char>, i: int)
    ensures
        skip_digits(s, i) >= i,
        0 <= i <= s.len() ==> skip_digits(s, i) <= s.len(),
        forall|k: int| i <= k < skip_digits(s, i) ==> is_digit(#[trigger] s[k]),
    decreases s.len() - i,
{
    if 0 <= i < s.len() && is_digit(s[i]) {
        lemma_skip_digits_bounds(s, i + 1);
    }
}

/// A constraint that is read consumes at least one character.
pub proof fn lemma_atom_advances(s: Seq<char>, i: int)
    ensures
        atom_at(s, i) is Ok ==> atom_at(s, i)->Ok_0.1 > i,
{
    let a = skip_spaces(s, i);
    lemma_skip_spaces_bounds(s, i);
    let negated = 0 <= a < s.len() && s[a] == '!';
    let a1 = if negated { a + 1 } else { a };
    let b = skip_spaces(s, a1);
    lemma_skip_spaces_bounds(s, a1);
    let operator = 0 <= b < s.len() && (s[b] == '>' || s[b] == '<');
    let c = if operator { b + 1 } else { b };
    let equal = 0 <= c < s.len() && s[c] == '=';
    let c1 = if equal { c + 1 } else { c };
    let d = skip_spaces(s, c1);
    lemma_skip_spaces_bounds(s, c1);
    let minus = 0 <= d < s.len() && s[d] == '-';
    let e = if minus { d + 1 } else { d };
    let f = skip_digits(s, e);
    lemma_skip_digits_bounds(s, e);
    lemma_skip_spaces_bounds(s, f);
}

/// The largest magnitude that any status code can have, plus one.
const MAGNITUDE_CAP: u64 = 2147483649;

spec fn capped(v: int) -> int {
    if v < MAGNITUDE_CAP as int {
        v
    } else {
        MAGNITUDE_CAP as int
    }
}

fn is_space_char(c: char) -> (r: bool)
    ensures
        r == is_space(c),
{
    c == ' ' || c == '\t'
}

fn is_digit_char(c: char) -> (r: bool)
    ensures
        r == is_digit(c),
{
    '0' <= c && c <= '9'
}

fn skip_spaces_from(s: &str, len: usize, i: usize) -> (r: usize)
    requires
        len == s@.len(),
        i <= len,
    ensures
        r == skip_spaces(s@, i as int),
        i <= r <= len,
{
    let mut j: usize = i;
    while j < len && is_space_char(s.get_char(j))
        invariant
            i <= j <= len,
            len == s@.len(),
            skip_spaces(s@, j as int) == skip_spaces(s@, i as int),
        decreases len - j,
    {
        j += 1;
    }
    j
}

fn skip_digits_from(s: &str, len: usize, i: usize) -> (r: usize)
    requires
        len == s@.len(),
        i <= len,
    ensures
        r == skip_digits(s@, i as int),
        i <= r <= len,
        forall|k: int| i <= k < r ==> is_digit(#[trigger] s@[k]),
{
    let mut j: usize = i;
    while j < len && is_digit_char(s.get_char(j))
        invariant
            i <= j <= len,
            len == s@.len(),
            skip_digits(s@, j as int) == skip_digits(s@, i as int),
            forall|k: int| i <= k < j ==> is_digit(#[trigger] s@[k]),
        decreases len - j,
    {
        j += 1;
    }
    j
}

/// The number that the digits between `from` and `to` denote, or the cap where it is
/// larger than any status code's magnitude.
fn digits_magnitude(s: &str, len: usize, from: usize, to: usize) -> (r: u64)
    requires
        len == s@.len(),
        from <= to <= len,
        forall|k: int| from <= k < to ==> is_digit(#[trigger] s@[k]),
    ensures
        r == capped(digits_value(s@.subrange(from as int, to as int))),
{
    let mut acc: u64 = 0;
    let mut k: usize = from;
    assert(s@.subrange(from as int, from as int) =~= Seq::<char>::empty());
    while k < to
        invariant
            from <= k <= to,
            to <= len,
            len == s@.len(),
            forall|m: int| from <= m < to ==> is_digit(#[trigger] s@[m]),
            acc == capped(digits_value(s@.subrange(from as int, k as int))),
        decreases to - k,
    {
        let c = s.get_char(k);
        assert(is_digit(s@[k as int]));
        let d: u64 = (c as u32 - '0' as u32) as u64;
        let ghost before = digits_value(s@.subrange(from as int, k as int));
        assert(s@.subrange(from as int, k + 1).drop_last() =~= s@.subrange(from as int, k as int));
        assert(digits_value(s@.subrange(from as int, k + 1)) == before * 10 + d);
        if acc < MAGNITUDE_CAP {
            let next: u64 = acc * 10 + d;
            acc = if next < MAGNITUDE_CAP {
                next
            } else {
                MAGNITUDE_CAP
            };
        } else {
            assert(before * 10 + d >= MAGNITUDE_CAP) by (nonlinear_arith)
                requires
                    before >= MAGNITUDE_CAP,
                    d >= 0,
            ;
        }
        k += 1;
    }
    acc
}

/// The legal tokens as text.
fn allowed_token_text(negated: bool, operator: bool, equal: bool, minus: bool) -> (r: String)
    ensures
        r@ == allowed_tokens(negated, operator, equal, minus),
{
    let all: &str = "!><=-0123456789";
    proof {
        reveal_strlit("!><=-0123456789");
        assert(all@ =~= all_tokens());
    }
    let from: usize = if minus {
        5
    } else if equal {
        4
    } else if operator {
        3
    } else if negated {
        1
    } else {
        0
    };
    all.substring_char(from, 15).to_owned()
}

/// Reads one constraint at position `i` of `s`, whose length in characters is `len`.
fn parse_status_constraint(s: &str, len: usize, i: usize) -> (r: Result<
    (StatusConstraint, usize),
    ParseStatusConstraintsError,
>)
    requires
        len == s@.len(),
        i <= len,
    ensures
        match r {
            Ok((c, j)) => atom_at(s@, i as int) == Ok::<(StatusConstraint, int), ParseFailure>(
                (c, j as int),
            ) && j <= len,
            Err(e) => atom_at(s@, i as int) == Err::<(StatusConstraint, int), ParseFailure>(e@),
        },
{
    let a = skip_spaces_from(s, len, i);
    let negated = a < len && s.get_char(a) == '!';
    let b = skip_spaces_from(s, len, if negated { a + 1 } else { a });
    let mut operator: Option<char> = None;
    if b < len {
        let ch = s.get_char(b);
        if ch == '>' || ch == '<' {
            operator = Some(ch);
        }
    }
    let c = if operator.is_some() { b + 1 } else { b };
    let equal = c < len && s.get_char(c) == '=';
    let d = skip_spaces_from(s, len, if equal { c + 1 } else { c });
    let minus = d < len && s.get_char(d) == '-';
    let e = if minus { d + 1 } else { d };
    let f = skip_digits_from(s, len, e);
    if f == e {
        let allowed_tokens = allowed_token_text(negated, operator.is_some(), equal, minus);
        let input = s.substring_char(e, len).to_owned();
        return Err(ParseStatusConstraintsError::UnexpectedToken { allowed_tokens, input });
    }
    let magnitude = digits_magnitude(s, len, e, f);
    let code: i32;
    if minus {
        if magnitude > 2147483648 {
            let literal = s.substring_char(d, f).to_owned();
            return Err(
                ParseStatusConstraintsError::IntegerOutOfRange {
                    literal,
                    direction: OutOfRange::TooLow,
                },
            );
        }
        code = (0i64 - magnitude as i64) as i32;
    } else {
        if magnitude > 2147483647 {
            let literal = s.substring_char(d, f).to_owned();
            return Err(
                ParseStatusConstraintsError::IntegerOutOfRange {
                    literal,
                    direction: OutOfRange::TooHigh,
                },
            );
        }
        code = magnitude as i32;
    }
    let typ = match operator {
        Some(op) => if op == '>' {
            if equal {
                ConstraintType::Gte
            } else {
                ConstraintType::Gt
            }
        } else {
            if equal {
                ConstraintType::Lte
            } else {
                ConstraintType::Lt
            }
        },
        None => ConstraintType::Eq,
    };
    let j = skip_spaces_from(s, len, f);
    Ok((StatusConstraint { typ, code, negated }, j))
}

/// Prepends `p` to a successful reading, and passes a failure on.
pub open spec fn prepend(p: Seq<StatusConstraint>, r: Result<Seq<StatusConstraint>, ParseFailure>) -> Result<
    Seq<StatusConstraint>,
    ParseFailure,
> {
    match r {
        Ok(rest) => Ok(p + rest),
        Err(e) => Err(e),
    }
}

/// Parses a constraint expression into the group of constraints that it lists.
pub fn parse_status_constraints(input: &str) -> (r: Result<
    Vec<StatusConstraint>,
    ParseStatusConstraintsError,
>)
    ensures
        match r {
            Ok(v) => parse_spec(input@) == Ok::<Seq<StatusConstraint>, ParseFailure>(v@),
            Err(e) => parse_spec(input@) == Err::<Seq<StatusConstraint>, ParseFailure>(e@),
        },
{
    let len = input.unicode_len();
    let mut constraints: Vec<StatusConstraint> = Vec::new();
    let mut i: usize = 0;
    assert(constraints@ + Seq::<StatusConstraint>::empty() =~= Seq::<StatusConstraint>::empty());
    loop
        invariant
            len == input@.len(),
            i <= len,
            parse_spec(input@) == prepend(constraints@, group_from(input@, i as int)),
        decreases len - i,
    {
        proof {
            lemma_atom_advances(input@, i as int);
        }
        match parse_status_constraint(input, len, i) {
            Err(e) => {
                return Err(e);
            },
            Ok((c, j)) => {
                let ghost before = constraints@;
                constraints.push(c);
                if j >= len {
                    assert(before + seq![c] =~= constraints@);
                    return Ok(constraints);
                }
                proof {
                    match group_from(input@, j as int) {
                        Ok(rest) => {
                            assert(before + (seq![c] + rest) =~= constraints@ + rest);
                        },
                        Err(_) => {},
                    }
                }
                i = j;
            },
        }
    }
}

} // verus!
