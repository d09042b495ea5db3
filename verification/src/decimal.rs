use vstd::prelude::*;

verus! {

/// One of the ten decimal digits.
pub open spec fn is_digit(c: char) -> bool {
    '0' <= c && c <= '9'
}

/// How many digits `text` has in a row from `from` on.
pub open spec fn digits_from(text: Seq<char>, from: int) -> int
    decreases text.len() - from,
{
    if 0 <= from < text.len() && is_digit(text[from]) {
        1 + digits_from(text, from + 1)
    } else {
        0
    }
}

/// Where the part after the sign starts.
pub open spec fn after_sign(text: Seq<char>) -> int {
    if text.len() > 0 && text[0] == '-' {
        1
    } else {
        0
    }
}

/// Where a run of at least one digit ends that starts at `from`.
pub open spec fn after_digits(text: Seq<char>, from: int) -> Option<int> {
    if digits_from(text, from) > 0 {
        Some(from + digits_from(text, from))
    } else {
        None
    }
}

/// Where the fraction ends that starts at `from`: a point and digits, or
/// nothing.
pub open spec fn after_fraction(text: Seq<char>, from: int) -> Option<int> {
    if 0 <= from < text.len() && text[from] == '.' {
        after_digits(text, from + 1)
    } else {
        Some(from)
    }
}

/// Where the digits of an exponent start whose letter stands at `from`.
pub open spec fn exponent_digits(text: Seq<char>, from: int) -> int {
    if 0 <= from + 1 < text.len() && (text[from + 1] == '+' || text[from + 1] == '-') {
        from + 2
    } else {
        from + 1
    }
}

/// Where the exponent ends that starts at `from`: the letter, a sign or
/// none, and digits; or nothing.
pub open spec fn after_exponent(text: Seq<char>, from: int) -> Option<int> {
    if 0 <= from < text.len() && (text[from] == 'e' || text[from] == 'E') {
        after_digits(text, exponent_digits(text, from))
    } else {
        Some(from)
    }
}

/// Where the number ends that `text` starts with.
pub open spec fn after_number(text: Seq<char>) -> Option<int> {
    match after_digits(text, after_sign(text)) {
        Some(whole) => match after_fraction(text, whole) {
            Some(fraction) => after_exponent(text, fraction),
            None => None,
        },
        None => None,
    }
}

/// `text` is a number in decimal notation: a minus sign or none, digits, a
/// point and digits or neither, an exponent or none, and nothing else.
pub open spec fn is_decimal(text: Seq<char>) -> bool {
    after_number(text) == Some(text.len() as int)
}

/// A number as its decimal text. Whatever holds one holds a number.
#[derive(Debug)]
pub struct Decimal {
    text: String,
}

impl View for Decimal {
    type V = Seq<char>;

    closed spec fn view(&self) -> Seq<char> {
        self.text@
    }
}

/// Whether `c` is a digit.
fn digit(c: char) -> (out: bool)
    ensures
        out == is_digit(c),
{
    '0' <= c && c <= '9'
}

/// Counts the digits that `text` has in a row from `from` on.
fn count_digits(text: &str, len: usize, from: usize) -> (out: usize)
    requires
        len == text@.len(),
        from <= len,
    ensures
        out == digits_from(text@, from as int),
        from + out <= len,
{
    let mut at: usize = from;
    while at < len && digit(text.get_char(at))
        invariant
            len == text@.len(),
            from <= at <= len,
            digits_from(text@, from as int) == (at - from) + digits_from(text@, at as int),
        decreases len - at,
    {
        at += 1;
    }
    at - from
}

/// Whether `text` is a number in decimal notation.
pub fn decimal(text: &str) -> (out: bool)
    ensures
        out == is_decimal(text@),
{
    let len = text.unicode_len();
    let mut at: usize = 0;
    if at < len && text.get_char(at) == '-' {
        at += 1;
    }
    let whole = count_digits(text, len, at);
    if whole == 0 {
        return false;
    }
    at += whole;
    if at < len && text.get_char(at) == '.' {
        at += 1;
        let fraction = count_digits(text, len, at);
        if fraction == 0 {
            return false;
        }
        at += fraction;
    }
    if at < len && (text.get_char(at) == 'e' || text.get_char(at) == 'E') {
        at += 1;
        if at < len && (text.get_char(at) == '+' || text.get_char(at) == '-') {
            at += 1;
        }
        let exponent = count_digits(text, len, at);
        if exponent == 0 {
            return false;
        }
        at += exponent;
    }
    at == len
}

impl Decimal {
    #[verifier::type_invariant]
    spec fn well_formed(self) -> bool {
        is_decimal(self.text@)
    }

    /// The number that `text` writes, if it writes one.
    pub fn parse(text: &str) -> (out: Option<Decimal>)
        ensures
            out is Some <==> is_decimal(text@),
            out is Some ==> out->Some_0@ == text@,
    {
        if decimal(text) {
            Some(Decimal { text: String::from_str(text) })
        } else {
            None
        }
    }

    /// The decimal text of the number.
    pub fn as_str(&self) -> (out: &str)
        ensures
            out@ == self@,
            is_decimal(out@),
    {
        proof {
            use_type_invariant(self);
        }
        self.text.as_str()
    }
}

impl Clone for Decimal {
    fn clone(&self) -> (out: Decimal)
        ensures
            out == *self,
    {
        proof {
            use_type_invariant(self);
        }
        Decimal { text: self.text.clone() }
    }
}

} // verus!
