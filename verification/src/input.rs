//! Bounded numeric text entry.
//!
//! [`InputEditor`] turns a stream of discrete keypad symbols into a
//! confirmed text buffer: digits and the decimal key append to the buffer
//! while room remains, a keystroke at full width is silently dropped, and
//! the confirm key finishes the entry only once the buffer is non-empty.
//!
//! [`parse_reading_e4`] then reads the confirmed buffer as a non-negative
//! decimal number in fixed point, scaled by `10^4`; fractional digits
//! beyond the fourth carry no weight at that scale and are ignored.

use vstd::prelude::*;
use crate::quality::READING_MAX_E4;

verus! {

/// Width of the display line, and so of the entry buffer.
pub const MAX_INPUT_WIDTH: usize = 16;

/// The keypad's idle symbol: no key is pressed.
pub const KEY_IDLE: char = ' ';

/// The confirm ("enter") key.
pub const KEY_CONFIRM: char = '#';

/// The decimal-point key.
pub const KEY_DECIMAL: char = '*';

/// Errors of the entry path.
#[derive(Clone, Copy, PartialEq, Eq, Structural, Debug)]
pub enum InputError {
    /// The confirmed buffer is not a representable decimal number.
    InvalidNumericInput,
}

/// State of the editor after one key: the buffer contents and whether the
/// entry is confirmed.
///
/// A confirmed editor no longer reacts to keys. Otherwise: the idle symbol
/// changes nothing; the confirm key confirms a non-empty buffer and is
/// ignored on an empty one; any other key appends (the decimal key as
/// `'.'`) while the buffer is short of [`MAX_INPUT_WIDTH`], and is dropped
/// at full width.
pub open spec fn spec_after_key(chars: Seq<char>, confirmed: bool, key: char) -> (Seq<char>, bool) {
    if confirmed {
        (chars, true)
    } else if key == KEY_IDLE {
        (chars, false)
    } else if key == KEY_CONFIRM {
        if chars.len() > 0 {
            (chars, true)
        } else {
            (chars, false)
        }
    } else {
        let c = if key == KEY_DECIMAL {
            '.'
        } else {
            key
        };
        if chars.len() < MAX_INPUT_WIDTH {
            (chars.push(c), false)
        } else {
            (chars, false)
        }
    }
}

/// Editor for one bounded numeric entry.
pub struct InputEditor {
    buffer: Vec<char>,
    confirmed: bool,
}

impl InputEditor {
    /// The collected characters.
    pub closed spec fn chars(&self) -> Seq<char> {
        self.buffer@
    }

    /// Whether the entry has been confirmed.
    pub closed spec fn spec_confirmed(&self) -> bool {
        self.confirmed
    }

    /// The buffer never exceeds the display width.
    pub closed spec fn wf(&self) -> bool {
        self.buffer@.len() <= MAX_INPUT_WIDTH
    }

    /// A fresh editor: empty buffer, not confirmed.
    pub fn new() -> (e: InputEditor)
        ensures
            e.wf(),
            e.chars().len() == 0,
            !e.spec_confirmed(),
    {
        InputEditor { buffer: Vec::new(), confirmed: false }
    }

    /// Whether the entry has been confirmed.
    pub fn is_confirmed(&self) -> (b: bool)
        ensures
            b == self.spec_confirmed(),
    {
        self.confirmed
    }

    /// Read access to the collected characters.
    pub fn buffer(&self) -> (v: &Vec<char>)
        ensures
            v@ == self.chars(),
    {
        &self.buffer
    }

    /// Feeds one key symbol to the editor; the transition is exactly
    /// [`spec_after_key`].
    pub fn step(&mut self, key: char)
        requires
            old(self).wf(),
        ensures
            final(self).wf(),
            final(self).chars() == spec_after_key(
                old(self).chars(),
                old(self).spec_confirmed(),
                key,
            ).0,
            final(self).spec_confirmed() == spec_after_key(
                old(self).chars(),
                old(self).spec_confirmed(),
                key,
            ).1,
    {
        if self.confirmed {
            return ;
        }
        if key == KEY_IDLE {
            return ;
        }
        if key == KEY_CONFIRM {
            if self.buffer.len() > 0 {
                self.confirmed = true;
            }
            return ;
        }
        let c = if key == KEY_DECIMAL {
            '.'
        } else {
            key
        };
        if self.buffer.len() < MAX_INPUT_WIDTH {
            self.buffer.push(c);
        }
    }
}

/// Whether `c` is a decimal digit.
pub open spec fn is_digit_char(c: char) -> bool {
    48 <= c as u32 <= 57
}

/// Numeric value of a digit character.
pub open spec fn digit_val(c: char) -> int {
    c as u32 - 48
}

/// Whether every character of `s` is a decimal digit.
pub open spec fn seq_is_digits(s: Seq<char>) -> bool {
    forall|i: int| 0 <= i < s.len() ==> is_digit_char(#[trigger] s[i])
}

/// Value of a digit string read as a base-10 numeral.
pub open spec fn digits_val(s: Seq<char>) -> int
    decreases s.len(),
{
    if s.len() == 0 {
        0
    } else {
        digits_val(s.drop_last()) * 10 + digit_val(s.last())
    }
}

/// `10^n`.
pub open spec fn pow10(n: nat) -> int
    decreases n,
{
    if n == 0 {
        1
    } else {
        10 * pow10((n - 1) as nat)
    }
}

/// Index of the first `'.'` in `s`, or `s.len()` if there is none.
pub open spec fn first_dot(s: Seq<char>) -> int
    decreases s.len(),
{
    if s.len() == 0 {
        0
    } else if s[0] == '.' {
        0
    } else {
        1 + first_dot(s.subrange(1, s.len() as int))
    }
}

/// The characters before the first `'.'`.
pub open spec fn int_part(s: Seq<char>) -> Seq<char> {
    s.subrange(0, first_dot(s))
}

/// The characters after the first `'.'`; empty if there is no `'.'`.
pub open spec fn frac_part(s: Seq<char>) -> Seq<char> {
    if first_dot(s) < s.len() {
        s.subrange(first_dot(s) + 1, s.len() as int)
    } else {
        Seq::empty()
    }
}

/// A representable decimal numeral: non-empty, digits on both sides of at
/// most one `'.'`, and at least one digit somewhere.
pub open spec fn is_valid_decimal(s: Seq<char>) -> bool {
    &&& s.len() > 0
    &&& seq_is_digits(int_part(s))
    &&& seq_is_digits(frac_part(s))
    &&& int_part(s).len() + frac_part(s).len() > 0
}

/// Value of the fractional digit string, scaled by `10^4`: only the first
/// four fractional digits carry weight at this scale.
pub open spec fn frac_scaled_e4(f: Seq<char>) -> int {
    if f.len() >= 4 {
        digits_val(f.take(4))
    } else {
        digits_val(f) * pow10((4 - f.len()) as nat)
    }
}

/// Value of a valid decimal numeral, scaled by `10^4`.
pub open spec fn decimal_value_e4(s: Seq<char>) -> int {
    digits_val(int_part(s)) * 10_000 + frac_scaled_e4(frac_part(s))
}

/// `10^n` is positive.
proof fn lemma_pow10_pos(n: nat)
    ensures
        pow10(n) >= 1,
    decreases n,
{
    if n > 0 {
        lemma_pow10_pos((n - 1) as nat);
    }
}

/// `10^n` grows with `n`.
proof fn lemma_pow10_mono(a: nat, b: nat)
    requires
        a <= b,
    ensures
        pow10(a) <= pow10(b),
    decreases b - a,
{
    if a < b {
        lemma_pow10_mono(a, (b - 1) as nat);
        lemma_pow10_pos((b - 1) as nat);
    }
}

/// A digit string of length `n` denotes a value below `10^n`.
proof fn lemma_digits_val_bound(s: Seq<char>)
    requires
        seq_is_digits(s),
    ensures
        0 <= digits_val(s) < pow10(s.len()),
    decreases s.len(),
{
    if s.len() > 0 {
        assert(is_digit_char(s[s.len() - 1]));
        lemma_digits_val_bound(s.drop_last());
    }
}

/// Appending a digit multiplies the value by ten and adds the digit.
proof fn lemma_digits_val_push(s: Seq<char>, c: char)
    ensures
        digits_val(s.push(c)) == digits_val(s) * 10 + digit_val(c),
{
    assert(s.push(c).drop_last() =~= s);
    assert(s.push(c).last() == c);
}

/// If no `'.'` occurs before `k`, the first dot is at `k` or later.
proof fn lemma_first_dot_ge(s: Seq<char>, k: int)
    requires
        0 <= k <= s.len(),
        forall|j: int| 0 <= j < k ==> #[trigger] s[j] != '.',
    ensures
        first_dot(s) >= k,
    decreases k,
{
    lemma_first_dot_bound(s);
    if k > 0 {
        assert(s[0] != '.');
        let t = s.subrange(1, s.len() as int);
        assert forall|j: int| 0 <= j < k - 1 implies #[trigger] t[j] != '.' by {
            assert(t[j] == s[j + 1]);
            assert(s[j + 1] != '.');
        }
        lemma_first_dot_ge(t, k - 1);
        assert(first_dot(s) == 1 + first_dot(t));
    }
}

/// A `'.'` at `k` puts the first dot at `k` or earlier.
proof fn lemma_first_dot_le(s: Seq<char>, k: int)
    requires
        0 <= k < s.len(),
        s[k] == '.',
    ensures
        first_dot(s) <= k,
    decreases k,
{
    if s[0] != '.' {
        lemma_first_dot_le(s.subrange(1, s.len() as int), k - 1);
    }
}

/// The first dot never lies beyond the end of the string.
proof fn lemma_first_dot_bound(s: Seq<char>)
    ensures
        0 <= first_dot(s) <= s.len(),
    decreases s.len(),
{
    if s.len() > 0 && s[0] != '.' {
        lemma_first_dot_bound(s.subrange(1, s.len() as int));
    }
}

/// Parses a confirmed entry buffer as a non-negative fixed-point reading
/// scaled by `10^4`.
///
/// Succeeds exactly on a representable decimal numeral whose value does
/// not exceed [`READING_MAX_E4`], and then returns that value; everything
/// else — an empty buffer, a lone `'.'`, a stray character, a second
/// `'.'`, or a value past the cap — is rejected as invalid input.
pub fn parse_reading_e4(buffer: &Vec<char>) -> (r: Result<i64, InputError>)
    requires
        buffer@.len() <= MAX_INPUT_WIDTH,
    ensures
        match r {
            Ok(v) => is_valid_decimal(buffer@) && decimal_value_e4(buffer@) <= READING_MAX_E4
                && v == decimal_value_e4(buffer@) && 0 <= v <= READING_MAX_E4,
            Err(e) => e == InputError::InvalidNumericInput && !(is_valid_decimal(buffer@)
                && decimal_value_e4(buffer@) <= READING_MAX_E4),
        },
{
    let ghost s = buffer@;
    let n = buffer.len();
    if n == 0 {
        return Err(InputError::InvalidNumericInput);
    }
    proof {
        reveal_with_fuel(pow10, 18);
    }

    // Integer part: scan up to the first '.' or the end.
    let mut i: usize = 0;
    let mut int_val: i128 = 0;
    while i < n && buffer[i] != '.'
        invariant
            n == s.len() <= MAX_INPUT_WIDTH,
            0 <= i <= n,
            forall|j: int| 0 <= j < i ==> #[trigger] s[j] != '.',
            seq_is_digits(s.subrange(0, i as int)),
            int_val == digits_val(s.subrange(0, i as int)),
            0 <= int_val < pow10(i as nat),
            buffer@ == s,
        decreases n - i,
    {
        let c = buffer[i];
        let u = c as u32;
        if u < 48 || u > 57 {
            // The stray character lands in the integer part, so the
            // buffer is not a numeral.
            proof {
                lemma_first_dot_ge(s, i + 1);
                lemma_first_dot_bound(s);
                assert(int_part(s)[i as int] == s[i as int]);
                assert(!is_digit_char(int_part(s)[i as int]));
            }
            return Err(InputError::InvalidNumericInput);
        }
        let d = (u - 48) as i128;
        proof {
            reveal_with_fuel(pow10, 18);
            assert(s.subrange(0, i + 1) =~= s.subrange(0, i as int).push(s[i as int]));
            lemma_digits_val_push(s.subrange(0, i as int), s[i as int]);
            lemma_digits_val_bound(s.subrange(0, i + 1));
            lemma_pow10_mono(i as nat, 16);
            lemma_pow10_mono((i + 1) as nat, 16);
        }
        int_val = int_val * 10 + d;
        i = i + 1;
    }
    proof {
        if i < n {
            lemma_first_dot_ge(s, i as int);
            lemma_first_dot_le(s, i as int);
        } else {
            lemma_first_dot_ge(s, n as int);
            lemma_first_dot_bound(s);
        }
        assert(first_dot(s) == i as int);
        assert(int_part(s) =~= s.subrange(0, i as int));
        lemma_pow10_mono(i as nat, 16);
    }

    // Fractional part, if a '.' was found: only the first four digits
    // carry weight, the rest are validated and dropped.
    let mut frac_val: i128 = 0;
    let mut frac_count: usize = 0;
    if i < n {
        let dot = i;
        let mut j = dot + 1;
        while j < n
            invariant
                n == s.len() <= MAX_INPUT_WIDTH,
                0 <= dot < n,
                first_dot(s) == dot as int,
                dot < j <= n,
                seq_is_digits(s.subrange(dot + 1, j as int)),
                frac_count == if j - dot - 1 <= 4 {
                    (j - dot - 1) as int
                } else {
                    4int
                },
                frac_val == digits_val(s.subrange(dot + 1, j as int).take(frac_count as int)),
                0 <= frac_val < pow10(frac_count as nat),
                frac_count <= 4,
                buffer@ == s,
            decreases n - j,
        {
            let c = buffer[j];
            let u = c as u32;
            if u < 48 || u > 57 {
                proof {
                    assert(frac_part(s) == s.subrange(dot + 1, n as int));
                    assert(frac_part(s)[j - dot - 1] == s[j as int]);
                    assert(!is_digit_char(frac_part(s)[j - dot - 1]));
                }
                return Err(InputError::InvalidNumericInput);
            }
            proof {
                assert(s.subrange(dot + 1, j + 1) =~= s.subrange(dot + 1, j as int).push(
                    s[j as int],
                ));
            }
            if frac_count < 4 {
                proof {
                    reveal_with_fuel(pow10, 6);
                    lemma_pow10_mono(frac_count as nat, 3);
                    assert(s.subrange(dot + 1, j + 1).take(frac_count + 1) =~= s.subrange(
                        dot + 1,
                        j as int,
                    ).take(frac_count as int).push(s[j as int]));
                    lemma_digits_val_push(
                        s.subrange(dot + 1, j as int).take(frac_count as int),
                        s[j as int],
                    );
                    lemma_digits_val_bound(s.subrange(dot + 1, j + 1).take(frac_count + 1));
                }
                let d = (u - 48) as i128;
                frac_val = frac_val * 10 + d;
                frac_count = frac_count + 1;
            } else {
                proof {
                    assert(s.subrange(dot + 1, j + 1).take(4) =~= s.subrange(dot + 1, j as int)
                        .take(4));
                }
            }
            j = j + 1;
        }
        if dot + 1 == n && dot == 0 {
            // The buffer is a lone '.': no digit anywhere.
            proof {
                assert(int_part(s).len() == 0);
                assert(frac_part(s).len() == 0);
            }
            return Err(InputError::InvalidNumericInput);
        }
    }

    // Scale the fraction out to four digits.
    let mult: i128 = if frac_count == 0 {
        10_000
    } else if frac_count == 1 {
        1_000
    } else if frac_count == 2 {
        100
    } else if frac_count == 3 {
        10
    } else {
        1
    };
    let frac_scaled = frac_val * mult;
    proof {
        let f = frac_part(s);
        if first_dot(s) < s.len() {
            if f.len() >= 4 {
                assert(f.take(4) == s.subrange(first_dot(s) + 1, s.len() as int).take(4));
            } else {
                assert(f.take(f.len() as int) =~= f);
            }
        } else {
            assert(f =~= Seq::<char>::empty());
        }
        assert(mult == pow10((4 - frac_count) as nat));
        assert(frac_scaled == frac_scaled_e4(frac_part(s)));
        lemma_digits_val_bound(int_part(s));
    }
    let value: i128 = int_val * 10_000 + frac_scaled;
    if value > (READING_MAX_E4 as i128) {
        return Err(InputError::InvalidNumericInput);
    }
    Ok(value as i64)
}

} // verus!
