//! Stream identifiers: 128-bit values written as hyphenated lower-case hex.

use vstd::prelude::*;

verus! {

/// The lower-case character that stands for the hexadecimal digit `d`.
pub open spec fn hex_char(d: nat) -> char
    recommends
        d < 16,
{
    if d == 0 {
        '0'
    } else if d == 1 {
        '1'
    } else if d == 2 {
        '2'
    } else if d == 3 {
        '3'
    } else if d == 4 {
        '4'
    } else if d == 5 {
        '5'
    } else if d == 6 {
        '6'
    } else if d == 7 {
        '7'
    } else if d == 8 {
        '8'
    } else if d == 9 {
        '9'
    } else if d == 10 {
        'a'
    } else if d == 11 {
        'b'
    } else if d == 12 {
        'c'
    } else if d == 13 {
        'd'
    } else if d == 14 {
        'e'
    } else {
        'f'
    }
}

/// The `count` lowest hexadecimal digits of `v`, most significant first.
pub open spec fn hex_digits(v: nat, count: nat) -> Seq<char>
    decreases count,
{
    if count == 0 {
        Seq::empty()
    } else {
        hex_digits(v / 16, (count - 1) as nat).push(hex_char(v % 16))
    }
}

/// What is left of `v` above its `count` lowest hexadecimal digits.
pub open spec fn above_digits(v: nat, count: nat) -> nat
    decreases count,
{
    if count == 0 {
        v
    } else {
        above_digits(v / 16, (count - 1) as nat)
    }
}

/// The canonical text of a 128-bit identifier: its 32 hexadecimal digits in
/// groups of 8, 4, 4, 4 and 12, with a hyphen between groups.
pub open spec fn hyphenated(value: u128) -> Seq<char> {
    let digits = hex_digits(value as nat, 32);
    digits.subrange(0, 8) + seq!['-'] + digits.subrange(8, 12) + seq!['-'] + digits.subrange(
        12,
        16,
    ) + seq!['-'] + digits.subrange(16, 20) + seq!['-'] + digits.subrange(20, 32)
}

/// The digits of a hyphenated text, with the hyphens taken out.
pub open spec fn without_hyphens(text: Seq<char>) -> Seq<char> {
    text.subrange(0, 8) + text.subrange(9, 13) + text.subrange(14, 18) + text.subrange(19, 23)
        + text.subrange(24, 36)
}

/// `count` digits are `count` characters.
pub proof fn lemma_hex_digits_len(v: nat, count: nat)
    ensures
        hex_digits(v, count).len() == count,
    decreases count,
{
    if count > 0 {
        lemma_hex_digits_len(v / 16, (count - 1) as nat);
    }
}

/// Equal digits and equal remainders above them come from equal numbers.
pub proof fn lemma_hex_digits_injective(a: nat, b: nat, count: nat)
    requires
        hex_digits(a, count) == hex_digits(b, count),
        above_digits(a, count) == above_digits(b, count),
    ensures
        a == b,
    decreases count,
{
    if count > 0 {
        let rest = (count - 1) as nat;
        lemma_hex_digits_len(a / 16, rest);
        lemma_hex_digits_len(b / 16, rest);
        let da = hex_digits(a / 16, rest);
        let db = hex_digits(b / 16, rest);
        assert(da.push(hex_char(a % 16)).last() == hex_char(a % 16));
        assert(db.push(hex_char(b % 16)).last() == hex_char(b % 16));
        assert(hex_char(a % 16) == hex_char(b % 16));
        assert(a % 16 == b % 16);
        assert(da =~= da.push(hex_char(a % 16)).drop_last());
        assert(db =~= db.push(hex_char(b % 16)).drop_last());
        lemma_hex_digits_injective(a / 16, b / 16, rest);
    }
}

/// Sixteen to the power `count`.
pub open spec fn sixteen_to(count: nat) -> nat
    decreases count,
{
    if count == 0 {
        1
    } else {
        16 * sixteen_to((count - 1) as nat)
    }
}

/// A number below sixteen to the power `count` has nothing above its
/// `count` lowest digits.
proof fn lemma_nothing_above(v: nat, count: nat)
    requires
        v < sixteen_to(count),
    ensures
        above_digits(v, count) == 0,
    decreases count,
{
    if count > 0 {
        lemma_nothing_above(v / 16, (count - 1) as nat);
    }
}

/// A 128-bit value has 32 digits and nothing above them.
proof fn lemma_u128_fits(value: u128)
    ensures
        above_digits(value as nat, 32) == 0,
{
    assert(sixteen_to(32) == 0x1_0000_0000_0000_0000_0000_0000_0000_0000) by {
        reveal_with_fuel(sixteen_to, 33);
    }
    lemma_nothing_above(value as nat, 32);
}

/// The text of an identifier has 36 characters, and without its hyphens it
/// is the identifier's 32 digits.
pub proof fn lemma_hyphenated_shape(value: u128)
    ensures
        hyphenated(value).len() == 36,
        without_hyphens(hyphenated(value)) == hex_digits(value as nat, 32),
{
    lemma_hex_digits_len(value as nat, 32);
    assert(without_hyphens(hyphenated(value)) =~= hex_digits(value as nat, 32));
}

/// Two identifiers with the same text are the same identifier.
pub proof fn lemma_hyphenated_injective(a: u128, b: u128)
    requires
        hyphenated(a) == hyphenated(b),
    ensures
        a == b,
{
    lemma_hyphenated_shape(a);
    lemma_hyphenated_shape(b);
    lemma_u128_fits(a);
    lemma_u128_fits(b);
    lemma_hex_digits_injective(a as nat, b as nat, 32);
}

/// Writes a 128-bit value as `uuid::Uuid::from_u128` and the `Display` of
/// `uuid::Uuid` do: the value's big-endian bytes in lower-case hex, grouped
/// 8-4-4-4-12 with hyphens.
#[verifier::external_body]
fn uuid_text(value: u128) -> (text: String)
    ensures
        text@ == hyphenated(value),
{
    uuid::Uuid::from_u128(value).to_string()
}

/// A random identifier as the standard marks it: the four version bits hold
/// 4 and the two variant bits hold binary 10. All other bits are free.
pub open spec fn version_4(value: u128) -> bool {
    value & 0x0000_0000_0000_f000_c000_0000_0000_0000
        == 0x0000_0000_0000_4000_8000_0000_0000_0000
}

/// The hexadecimal digit of `v` that stands at `index` among its `count`
/// lowest digits, counted from the most significant one.
pub open spec fn hex_digit(v: nat, count: nat, index: nat) -> nat
    recommends
        index < count,
{
    (v / sixteen_to((count - 1 - index) as nat)) % 16
}

/// Each character of the digits of `v` stands for the digit at its place.
pub proof fn lemma_hex_digits_index(v: nat, count: nat, index: nat)
    requires
        index < count,
    ensures
        hex_digits(v, count).len() == count,
        hex_digits(v, count)[index as int] == hex_char(hex_digit(v, count, index)),
    decreases count,
{
    lemma_hex_digits_len(v, count);
    lemma_hex_digits_len(v / 16, (count - 1) as nat);
    let rest = hex_digits(v / 16, (count - 1) as nat);
    assert(hex_digits(v, count) == rest.push(hex_char(v % 16)));
    if index + 1 < count {
        lemma_hex_digits_index(v / 16, (count - 1) as nat, index);
        let below = sixteen_to((count - 2 - index) as nat);
        assert(sixteen_to((count - 1 - index) as nat) == 16 * below);
        assert(below > 0) by {
            lemma_sixteen_to_positive((count - 2 - index) as nat);
        }
        assert((v / 16) / below == v / (16 * below)) by {
            vstd::arithmetic::div_mod::lemma_div_denominator(v as int, 16, below as int);
        }
        assert(hex_digit(v / 16, (count - 1) as nat, index) == hex_digit(v, count, index));
        assert(hex_digits(v, count)[index as int] == rest[index as int]);
    } else {
        let unit = sixteen_to((count - 1 - index) as nat);
        assert(unit == 1);
        assert(v / unit == v) by (nonlinear_arith)
            requires
                unit == 1,
        ;
        assert(hex_digit(v, count, index) == v % 16);
        assert(hex_digits(v, count)[index as int] == hex_char(v % 16));
    }
}

proof fn lemma_sixteen_to_positive(count: nat)
    ensures
        sixteen_to(count) > 0,
    decreases count,
{
    if count > 0 {
        lemma_sixteen_to_positive((count - 1) as nat);
    }
}

/// The text of a version-4 identifier shows its marks: the third group
/// starts with `4` and the fourth group with `8`, `9`, `a` or `b`.
pub proof fn lemma_version_4_text(value: u128)
    requires
        version_4(value),
    ensures
        hyphenated(value).len() == 36,
        hyphenated(value)[14] == '4',
        hyphenated(value)[19] == '8' || hyphenated(value)[19] == '9' || hyphenated(value)[19]
            == 'a' || hyphenated(value)[19] == 'b',
{
    lemma_hex_digits_index(value as nat, 32, 12);
    lemma_hex_digits_index(value as nat, 32, 16);
    assert(sixteen_to(19) == 0x1000_0000_0000_0000_0000) by {
        reveal_with_fuel(sixteen_to, 20);
    }
    assert(sixteen_to(15) == 0x1000_0000_0000_0000) by {
        reveal_with_fuel(sixteen_to, 16);
    }
    assert((value / 0x1000_0000_0000_0000_0000u128) % 16 == 4 && 8 <= (value
        / 0x1000_0000_0000_0000u128) % 16 <= 11) by (bit_vector)
        requires
            value & 0x0000_0000_0000_f000_c000_0000_0000_0000
                == 0x0000_0000_0000_4000_8000_0000_0000_0000,
    ;
    assert(hex_digit(value as nat, 32, 12) == 4);
    assert(8 <= hex_digit(value as nat, 32, 16) <= 11);
    let digits = hex_digits(value as nat, 32);
    assert(hyphenated(value)[14] == digits[12]);
    assert(hyphenated(value)[19] == digits[16]);
}

/// Draws a random identifier with `uuid::Uuid::new_v4` and returns it as
/// `uuid::Uuid::as_u128` gives it. Whatever is drawn, `new_v4` sets the
/// version bits to 4 and the variant bits to binary 10; nothing else is
/// claimed of the value. The call fails hard where the operating system can
/// supply no random bytes.
#[verifier::external_body]
fn uuid_random() -> (value: u128)
    ensures
        version_4(value),
{
    uuid::Uuid::new_v4().as_u128()
}

/// The identifier of a stream and of the pipeline that serves it.
#[derive(Clone, Copy, Debug, PartialEq, Eq, Hash, Structural)]
pub struct StreamId {
    pub value: u128,
}

impl View for StreamId {
    type V = u128;

    open spec fn view(&self) -> u128 {
        self.value
    }
}

impl StreamId {
    pub fn from_u128(value: u128) -> (id: StreamId)
        ensures
            id@ == value,
    {
        StreamId { value }
    }

    pub fn as_u128(&self) -> (value: u128)
        ensures
            value == self@,
    {
        self.value
    }

    /// A random identifier, marked as version 4. Which one comes back is
    /// left to chance.
    pub fn random() -> (id: StreamId)
        ensures
            version_4(id@),
    {
        StreamId { value: uuid_random() }
    }

    /// The identifier as text, in the form `xxxxxxxx-xxxx-xxxx-xxxx-xxxxxxxxxxxx`.
    pub fn hyphenated(&self) -> (text: String)
        ensures
            text@ == hyphenated(self@),
    {
        uuid_text(self.value)
    }
}

} // verus!
