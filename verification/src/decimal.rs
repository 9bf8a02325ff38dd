//! Strategy for fixed point decimal columns. The transit buffer holds the
//! value as text; filling strips the decimal point (its position is implied
//! by the schema's scale, not read from the text) and parses the remaining
//! signed digit run as a 128 bit integer. Malformed text is an explicit
//! row level failure, never a silent partial parse.

use vstd::prelude::*;

use crate::failure::FillFailure;
use crate::types::BufferDescription;
use crate::types::BufferKind;
use crate::view::ColumnArray;
use crate::view::ColumnView;

verus! {

/// The largest digit budget a 128 bit fixed point value can honour: every
/// integer of up to this many decimal digits fits.
pub const MAX_DECIMAL_PRECISION: usize = 38;

/// Ten to the `n`th.
pub open spec fn pow10(n: nat) -> int
    decreases n,
{
    if n == 0 {
        1
    } else {
        10 * pow10((n - 1) as nat)
    }
}

pub open spec fn is_ascii_digit(b: u8) -> bool {
    48 <= b <= 57
}

/// The text with every `.` byte removed, order of the rest kept.
pub open spec fn strip_points(s: Seq<u8>) -> Seq<u8>
    decreases s.len(),
{
    if s.len() == 0 {
        Seq::empty()
    } else if s.last() == 46u8 {
        strip_points(s.drop_last())
    } else {
        strip_points(s.drop_last()).push(s.last())
    }
}

/// Value of a run of ASCII digits read in radix 10.
pub open spec fn digits_value(s: Seq<u8>) -> int
    decreases s.len(),
{
    if s.len() == 0 {
        0
    } else {
        digits_value(s.drop_last()) * 10 + (s.last() - 48)
    }
}

pub open spec fn all_digits(s: Seq<u8>) -> bool {
    forall|i: int| 0 <= i < s.len() ==> is_ascii_digit(s[i])
}

/// Whether the (point-stripped) text starts with an explicit sign.
pub open spec fn has_sign(s: Seq<u8>) -> bool {
    s.len() > 0 && (s[0] == 45u8 || s[0] == 43u8)
}

/// The digit run of a (point-stripped) text: everything after the optional
/// leading sign.
pub open spec fn digits_of(s: Seq<u8>) -> Seq<u8> {
    if has_sign(s) {
        s.skip(1)
    } else {
        s
    }
}

/// A well formed point-stripped decimal body: an optional sign, then at
/// least one digit and nothing else, within the 128 bit digit budget.
pub open spec fn valid_decimal_body(s: Seq<u8>) -> bool {
    &&& digits_of(s).len() >= 1
    &&& digits_of(s).len() <= MAX_DECIMAL_PRECISION
    &&& all_digits(digits_of(s))
}

/// Signed value of a well formed point-stripped decimal body.
pub open spec fn decimal_body_value(s: Seq<u8>) -> int {
    if has_sign(s) && s[0] == 45u8 {
        -digits_value(s.skip(1))
    } else {
        digits_value(digits_of(s))
    }
}

/// Whether a text cell parses as a decimal once its points are stripped.
pub open spec fn valid_decimal_text(s: Seq<u8>) -> bool {
    valid_decimal_body(strip_points(s))
}

/// The fixed point value a text cell denotes, scaled by the schema's scale.
pub open spec fn decimal_text_value(s: Seq<u8>) -> int {
    decimal_body_value(strip_points(s))
}

/// Ten to the `n`th grows with `n`.
pub proof fn lemma_pow10_increases(a: nat, b: nat)
    requires
        a <= b,
    ensures
        pow10(a) <= pow10(b),
    decreases b,
{
    if a < b {
        lemma_pow10_increases(a, (b - 1) as nat);
        assert(pow10(b) == 10 * pow10((b - 1) as nat));
        assert(pow10((b - 1) as nat) >= 1) by {
            lemma_pow10_at_least_one((b - 1) as nat);
        }
    }
}

/// Ten to any power is at least one.
pub proof fn lemma_pow10_at_least_one(n: nat)
    ensures
        pow10(n) >= 1,
    decreases n,
{
    if n > 0 {
        lemma_pow10_at_least_one((n - 1) as nat);
    }
}

/// Ten to the 38th written out, so the digit budget can be compared with
/// the 128 bit range.
pub proof fn lemma_pow10_max_precision()
    ensures
        pow10(MAX_DECIMAL_PRECISION as nat) == 100000000000000000000000000000000000000,
{
    assert(pow10(0) == 1);
    assert(pow10(1) == 10);
    assert(pow10(2) == 100);
    assert(pow10(3) == 1000);
    assert(pow10(4) == 10000);
    assert(pow10(5) == 100000);
    assert(pow10(6) == 1000000);
    assert(pow10(7) == 10000000);
    assert(pow10(8) == 100000000);
    assert(pow10(9) == 1000000000);
    assert(pow10(10) == 10000000000);
    assert(pow10(11) == 100000000000);
    assert(pow10(12) == 1000000000000);
    assert(pow10(13) == 10000000000000);
    assert(pow10(14) == 100000000000000);
    assert(pow10(15) == 1000000000000000);
    assert(pow10(16) == 10000000000000000);
    assert(pow10(17) == 100000000000000000);
    assert(pow10(18) == 1000000000000000000);
    assert(pow10(19) == 10000000000000000000);
    assert(pow10(20) == 100000000000000000000);
    assert(pow10(21) == 1000000000000000000000);
    assert(pow10(22) == 10000000000000000000000);
    assert(pow10(23) == 100000000000000000000000);
    assert(pow10(24) == 1000000000000000000000000);
    assert(pow10(25) == 10000000000000000000000000);
    assert(pow10(26) == 100000000000000000000000000);
    assert(pow10(27) == 1000000000000000000000000000);
    assert(pow10(28) == 10000000000000000000000000000);
    assert(pow10(29) == 100000000000000000000000000000);
    assert(pow10(30) == 1000000000000000000000000000000);
    assert(pow10(31) == 10000000000000000000000000000000);
    assert(pow10(32) == 100000000000000000000000000000000);
    assert(pow10(33) == 1000000000000000000000000000000000);
    assert(pow10(34) == 10000000000000000000000000000000000);
    assert(pow10(35) == 100000000000000000000000000000000000);
    assert(pow10(36) == 1000000000000000000000000000000000000);
    assert(pow10(37) == 10000000000000000000000000000000000000);
    assert(pow10(38) == 100000000000000000000000000000000000000);
}

/// Parses the signed digit run left after stripping the decimal points out
/// of a text cell. `None` when the cell is not a well formed decimal: no
/// digit at all, a byte other than an ASCII digit after the optional leading
/// sign, or more digits than the 128 bit budget allows.
#[verifier::loop_isolation(false)]
#[verifier::rlimit(100)]
pub fn parse_decimal_text(text: &Vec<u8>) -> (r: Option<i128>)
    ensures
        r is Some <==> valid_decimal_text(text@),
        r matches Some(v) ==> v == decimal_text_value(text@),
{
    let mut body: Vec<u8> = Vec::new();
    let mut i: usize = 0;
    while i < text.len()
        invariant
            i <= text@.len(),
            body@ == strip_points(text@.take(i as int)),
        decreases text@.len() - i,
    {
        let b: u8 = text[i];
        proof {
            assert(text@.take(i as int + 1).drop_last() =~= text@.take(i as int));
            assert(text@.take(i as int + 1).last() == text@[i as int]);
        }
        if b != 46 {
            body.push(b);
        }
        i += 1;
    }
    proof {
        assert(text@.take(text@.len() as int) =~= text@);
    }
    let negative: bool;
    let start: usize;
    if body.len() > 0 && (body[0] == 45 || body[0] == 43) {
        negative = body[0] == 45;
        start = 1;
    } else {
        negative = false;
        start = 0;
    }
    if body.len() == start {
        return None;
    }
    if body.len() - start > MAX_DECIMAL_PRECISION {
        proof {
            assert(body@ == strip_points(text@));
            if start == 1 {
                assert(has_sign(body@));
                assert(digits_of(body@) =~= body@.skip(1));
            } else {
                assert(!has_sign(body@));
            }
            assert(digits_of(body@).len() > MAX_DECIMAL_PRECISION);
        }
        return None;
    }
    let ghost run: Seq<u8> = digits_of(body@);
    proof {
        assert(run =~= body@.skip(start as int));
    }
    let mut value: i128 = 0;
    let mut j: usize = start;
    while j < body.len()
        invariant
            start <= j <= body@.len(),
            body@.len() - start <= MAX_DECIMAL_PRECISION,
            run == digits_of(body@),
            run =~= body@.skip(start as int),
            all_digits(run.take(j - start)),
            value == digits_value(run.take(j - start)),
            0 <= value < pow10((j - start) as nat),
        decreases body@.len() - j,
    {
        let b: u8 = body[j];
        if b < 48 || b > 57 {
            proof {
                assert(run[j - start] == b);
            }
            return None;
        }
        proof {
            assert(run.take(j - start + 1).drop_last() =~= run.take(j - start));
            assert(run.take(j - start + 1).last() == run[j - start]);
            assert(pow10((j - start + 1) as nat) == 10 * pow10((j - start) as nat));
            lemma_pow10_increases((j - start + 1) as nat, MAX_DECIMAL_PRECISION as nat);
            lemma_pow10_max_precision();
        }
        value = value * 10 + ((b - 48) as i128);
        j += 1;
    }
    proof {
        assert(run.take((j - start) as int) =~= run);
        lemma_pow10_max_precision();
        lemma_pow10_increases((j - start) as nat, MAX_DECIMAL_PRECISION as nat);
    }
    if negative {
        Some(-value)
    } else {
        Some(value)
    }
}

/// A present text slot parsed as a fixed point value; a null slot copied
/// forward.
pub open spec fn spec_decimal_slot(row: Option<Vec<u8>>) -> Option<i128> {
    match row {
        None => None,
        Some(t) => Some(decimal_text_value(t@) as i128),
    }
}

/// Strategy for a fixed point decimal column. `precision` and `scale` come
/// from the target schema, never from the text, and are fixed at
/// construction.
pub struct Decimal {
    pub nullable: bool,
    pub precision: usize,
    pub scale: usize,
}

/// A decimal strategy's parameters as validated at construction.
pub open spec fn spec_decimal_wf(d: Decimal) -> bool {
    &&& 1 <= d.precision <= MAX_DECIMAL_PRECISION
    &&& d.scale <= d.precision
}

/// What filling with a [`Decimal`] strategy produces: every present cell
/// parsed, nulls copied forward, or the position of the first malformed
/// cell.
pub open spec fn spec_decimal_fill(
    d: Decimal,
    column_view: ColumnView,
    r: Result<ColumnArray, FillFailure>,
) -> bool {
    match column_view {
        ColumnView::Text { rows, .. } => {
            &&& (r is Ok <==> (forall|i: int| #![auto]
                0 <= i < rows@.len() && rows@[i] is Some ==> valid_decimal_text(
                    rows@[i]->Some_0@,
                )))
            &&& (match r {
                Result::Ok(arr) => match arr {
                    ColumnArray::Decimal { precision, scale, values } => {
                        &&& precision == d.precision
                        &&& scale == d.scale
                        &&& values@.len() == rows@.len()
                        &&& forall|i: int| #![auto]
                            0 <= i < rows@.len() ==> values@[i] == spec_decimal_slot(rows@[i])
                    },
                    _ => false,
                },
                Result::Err(f) => match f {
                    FillFailure::MalformedDecimalText { row_index } => {
                        &&& row_index < rows@.len()
                        &&& rows@[row_index as int] is Some
                        &&& !valid_decimal_text(rows@[row_index as int]->Some_0@)
                        &&& forall|i: int| #![auto]
                            0 <= i < row_index && rows@[i] is Some ==> valid_decimal_text(
                                rows@[i]->Some_0@,
                            )
                    },
                },
            })
        },
        _ => true,
    }
}

impl Decimal {
    /// Builds the decimal strategy for a column of the given digit budget.
    /// The budget must be honourable by a 128 bit fixed point value, and
    /// the scale cannot exceed it.
    pub fn new(nullable: bool, precision: usize, scale: usize) -> (r: Self)
        requires
            1 <= precision <= MAX_DECIMAL_PRECISION,
            scale <= precision,
        ensures
            r == (Decimal { nullable, precision, scale }),
    {
        Decimal { nullable, precision, scale }
    }

    /// The transit text cell must hold `precision` digits, a sign and a
    /// decimal point.
    pub fn buffer_description(&self) -> (r: BufferDescription)
        requires
            spec_decimal_wf(*self),
        ensures
            r == (BufferDescription {
                nullable: self.nullable,
                kind: BufferKind::Text { max_str_len: (self.precision + 2) as usize },
            }),
    {
        BufferDescription {
            nullable: self.nullable,
            kind: BufferKind::Text { max_str_len: self.precision + 2 },
        }
    }

    /// Parses every present cell into a fixed point value and copies nulls
    /// forward. The first malformed cell is reported as an explicit row
    /// level failure instead of a guessed value.
    #[verifier::loop_isolation(false)]
    #[verifier::rlimit(50)]
    pub fn fill_arrow_array(&self, column_view: ColumnView) -> (r: Result<
        ColumnArray,
        FillFailure,
    >)
        requires
            column_view matches ColumnView::Text { max_str_len, .. } && max_str_len
                == self.precision + 2,
        ensures
            spec_decimal_fill(*self, column_view, r),
    {
        match column_view {
            ColumnView::Text { rows, .. } => {
                let mut values: Vec<Option<i128>> = Vec::new();
                let mut i: usize = 0;
                while i < rows.len()
                    invariant
                        i <= rows@.len(),
                        values@.len() == i as int,
                        forall|k: int| #![auto]
                            0 <= k < i && rows@[k] is Some ==> valid_decimal_text(
                                rows@[k]->Some_0@,
                            ),
                        forall|k: int| #![auto]
                            0 <= k < i ==> values@[k] == spec_decimal_slot(rows@[k]),
                    decreases rows@.len() - i,
                {
                    match &rows[i] {
                        None => values.push(None),
                        Some(text) => {
                            match parse_decimal_text(text) {
                                None => {
                                    proof {
                                        assert(rows@[i as int] is Some);
                                        assert(!valid_decimal_text(rows@[i as int]->Some_0@));
                                    }
                                    return Err(
                                        FillFailure::MalformedDecimalText { row_index: i },
                                    );
                                }
                                Some(v) => values.push(Some(v)),
                            }
                        }
                    }
                    i += 1;
                }
                Ok(
                    ColumnArray::Decimal {
                        precision: self.precision,
                        scale: self.scale,
                        values,
                    },
                )
            }
            _ => {
                proof {
                    assert(false);
                }
                Ok(ColumnArray::Binary(Vec::new()))
            }
        }
    }
}

} // verus!
