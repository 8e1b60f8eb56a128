//! Attachment colors: a reserved keyword or a hex color code.

use vstd::prelude::*;
use vstd::string::StrSliceExecFns;
use vstd::string::StringExecFns;

verus! {

/// Whether `s` is one of the reserved keywords `good`, `warning`, `danger`.
pub open spec fn is_color_keyword(s: Seq<char>) -> bool {
    s == seq!['g', 'o', 'o', 'd'] || s == seq!['w', 'a', 'r', 'n', 'i', 'n', 'g'] || s == seq![
        'd',
        'a',
        'n',
        'g',
        'e',
        'r',
    ]
}

pub open spec fn is_hex_digit(c: char) -> bool {
    ('0' <= c && c <= '9') || ('a' <= c && c <= 'f') || ('A' <= c && c <= 'F')
}

/// Whether `s` is `#` followed by three or six hex digits.
pub open spec fn is_hex_code(s: Seq<char>) -> bool {
    &&& s.len() == 4 || s.len() == 7
    &&& s[0] == '#'
    &&& forall|i: int| 1 <= i < s.len() ==> is_hex_digit(#[trigger] s[i])
}

pub open spec fn is_valid_color(s: Seq<char>) -> bool {
    is_color_keyword(s) || is_hex_code(s)
}

/// Why a text is not a color.
#[derive(Debug, Clone, Copy, PartialEq, Eq)]
pub enum ColorFault {
    /// Neither a keyword nor starting with `#`.
    MissingHash,
    /// Starts with `#` but is not 4 or 7 characters long.
    WrongLength,
    /// Has the shape of a hex code, but a character after `#` is no hex digit.
    NotHexDigit,
}

/// The fault reported for a text that is not a valid color.
pub open spec fn color_fault(s: Seq<char>) -> ColorFault {
    if s.len() == 0 || s[0] != '#' {
        ColorFault::MissingHash
    } else if s.len() != 4 && s.len() != 7 {
        ColorFault::WrongLength
    } else {
        ColorFault::NotHexDigit
    }
}

/// A value that failed validation.
#[derive(Debug, Clone, PartialEq, Eq)]
pub enum ValidationError {
    /// The text given as a color, and why it was refused.
    InvalidColor { input: String, reason: ColorFault },
}

/// The color of an attachment: `good`, `warning`, `danger`, or a hex code
/// such as `#b13d41` or `#000`.
#[derive(Debug)]
pub struct HexColor {
    code: String,
}

impl View for HexColor {
    type V = Seq<char>;

    closed spec fn view(&self) -> Seq<char> {
        self.code@
    }
}

fn same_chars(a: &str, b: &str) -> (r: bool)
    ensures
        r == (a@ == b@),
{
    let n = a.unicode_len();
    if n != b.unicode_len() {
        return false;
    }
    let mut i: usize = 0;
    while i < n
        invariant
            n == a@.len() == b@.len(),
            i <= n,
            forall|j: int| 0 <= j < i ==> a@[j] == b@[j],
        decreases n - i,
    {
        if a.get_char(i) != b.get_char(i) {
            return false;
        }
        i = i + 1;
    }
    assert(a@ =~= b@);
    true
}

fn hex_digit(c: char) -> (r: bool)
    ensures
        r == is_hex_digit(c),
{
    ('0' <= c && c <= '9') || ('a' <= c && c <= 'f') || ('A' <= c && c <= 'F')
}

impl HexColor {
    #[verifier::type_invariant]
    spec fn inv(self) -> bool {
        is_valid_color(self.code@)
    }

    /// Accepts `s` unchanged if it is a color keyword or a hex code, and
    /// reports why otherwise.
    pub fn parse(s: &str) -> (r: Result<HexColor, ValidationError>)
        ensures
            r is Ok <==> is_valid_color(s@),
            r matches Ok(c) ==> c@ == s@,
            r matches Err(ValidationError::InvalidColor { input, reason }) ==> input@ == s@
                && reason == color_fault(s@),
    {
        proof {
            reveal_strlit("good");
            reveal_strlit("warning");
            reveal_strlit("danger");
            assert("good"@ =~= seq!['g', 'o', 'o', 'd']);
            assert("warning"@ =~= seq!['w', 'a', 'r', 'n', 'i', 'n', 'g']);
            assert("danger"@ =~= seq!['d', 'a', 'n', 'g', 'e', 'r']);
        }
        if same_chars(s, "good") || same_chars(s, "warning") || same_chars(s, "danger") {
            return Ok(HexColor { code: String::from_str(s) });
        }
        let n = s.unicode_len();
        if n == 0 || s.get_char(0) != '#' {
            return Err(
                ValidationError::InvalidColor {
                    input: String::from_str(s),
                    reason: ColorFault::MissingHash,
                },
            );
        }
        if n != 4 && n != 7 {
            return Err(
                ValidationError::InvalidColor {
                    input: String::from_str(s),
                    reason: ColorFault::WrongLength,
                },
            );
        }
        let mut i: usize = 1;
        while i < n
            invariant
                n == s@.len(),
                n == 4 || n == 7,
                s@[0] == '#',
                !is_color_keyword(s@),
                1 <= i <= n,
                forall|j: int| 1 <= j < i ==> is_hex_digit(#[trigger] s@[j]),
            decreases n - i,
        {
            if !hex_digit(s.get_char(i)) {
                assert(!is_hex_code(s@));
                return Err(
                    ValidationError::InvalidColor {
                        input: String::from_str(s),
                        reason: ColorFault::NotHexDigit,
                    },
                );
            }
            i = i + 1;
        }
        Ok(HexColor { code: String::from_str(s) })
    }

    /// The color as given, as it goes on the wire.
    pub fn encode(&self) -> (r: String)
        ensures
            r@ == self@,
            is_valid_color(r@),
    {
        proof {
            use_type_invariant(self);
        }
        self.code.clone()
    }
}

} // verus!
