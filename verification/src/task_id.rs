//! Task identifiers and their canonical text.
//!
//! A task is identified by a 128-bit ULID. Its text, which the `jobs` table stores and the
//! queries take, is 26 symbols of Crockford's base 32, most significant first.
use vstd::arithmetic::power::pow;
use vstd::prelude::*;
use vstd::utf8::encode_utf8;

use apalis_core::task::task_id::TaskId;
use ulid::Ulid;

verus! {

/// Number of symbols in the text of an identifier.
pub const ID_TEXT_LEN: usize = 26;

/// Identifier of a task: a ULID, as the 128-bit number it stands for.
#[derive(Debug, Clone, Copy, PartialEq, Eq, Structural)]
pub struct PgTaskId {
    pub ulid: u128,
}

/// The symbol that stands for a base 32 digit: the decimal digits, then the capital letters
/// without `I`, `L`, `O` and `U`.
pub open spec fn symbol(digit: nat) -> char
    recommends
        digit < 32,
{
    if digit < 10 {
        (48 + digit) as char
    } else if digit < 18 {
        (55 + digit) as char
    } else if digit < 20 {
        (56 + digit) as char
    } else if digit < 22 {
        (57 + digit) as char
    } else if digit < 27 {
        (58 + digit) as char
    } else {
        (59 + digit) as char
    }
}

/// The digit that a byte of an identifier's text stands for, in either letter case.
pub open spec fn digit_of(byte: u8) -> Option<nat> {
    let capital: int = if 97 <= byte <= 122 {
        byte - 32
    } else {
        byte as int
    };
    if 48 <= capital <= 57 {
        Some((capital - 48) as nat)
    } else if 65 <= capital <= 72 {
        Some((capital - 55) as nat)
    } else if 74 <= capital <= 75 {
        Some((capital - 56) as nat)
    } else if 77 <= capital <= 78 {
        Some((capital - 57) as nat)
    } else if 80 <= capital <= 84 {
        Some((capital - 58) as nat)
    } else if 86 <= capital <= 90 {
        Some((capital - 59) as nat)
    } else {
        None
    }
}

/// The low `places` base 32 digits of `value`, written most significant first.
pub open spec fn digits_text(value: nat, places: nat) -> Seq<char>
    decreases places,
{
    if places == 0 {
        Seq::empty()
    } else {
        digits_text(value / 32, (places - 1) as nat).push(symbol(value % 32))
    }
}

/// The number that a sequence of digit bytes stands for, most significant first.
pub open spec fn number_of(bytes: Seq<u8>) -> nat
    decreases bytes.len(),
{
    if bytes.len() == 0 {
        0
    } else {
        number_of(bytes.drop_last()) * 32 + digit_of(bytes.last())->0
    }
}

/// The canonical text of an identifier.
pub open spec fn id_text(ulid: u128) -> Seq<char> {
    digits_text(ulid as nat, ID_TEXT_LEN as nat)
}

/// What reading an identifier from `text` gives: the identifier, or the reason why there is
/// none. The 26 symbols hold 130 bits, of which the first two are lost.
pub open spec fn parsed_id(text: Seq<char>) -> Result<u128, Seq<char>> {
    let bytes = encode_utf8(text);
    if bytes.len() != ID_TEXT_LEN {
        Err("invalid length"@)
    } else if exists|i: int| 0 <= i < bytes.len() && digit_of(#[trigger] bytes[i]) is None {
        Err("invalid character"@)
    } else {
        Ok((number_of(bytes) % (u128::MAX as nat + 1)) as u128)
    }
}

/// Calls `to_string` of `apalis_core`'s `TaskId` over `ulid`'s `Ulid`, whose `Display` writes
/// the number as 26 symbols of Crockford's base 32, five bits each, the lowest last.
#[verifier::external_body]
fn task_id_to_string(ulid: u128) -> (text: String)
    ensures
        text@ == id_text(ulid),
{
    TaskId::new(Ulid(ulid)).to_string()
}

impl PgTaskId {
    /// The canonical text of the identifier.
    pub fn to_string(&self) -> (text: String)
        ensures
            text@ == id_text(self.ulid),
    {
        task_id_to_string(self.ulid)
    }
}

proof fn lemma_digits_text_len(value: nat, places: nat)
    ensures
        digits_text(value, places).len() == places,
    decreases places,
{
    if places > 0 {
        lemma_digits_text_len(value / 32, (places - 1) as nat);
    }
}

/// The bytes of a text made of digit symbols: one byte for each symbol.
spec fn narrow(text: Seq<char>) -> Seq<u8> {
    text.map_values(|c: char| c as u8)
}

proof fn lemma_digits_text_symbols(value: nat, places: nat)
    ensures
        forall|i: int|
            0 <= i < places ==> '\0' <= #[trigger] digits_text(value, places)[i] <= '\u{7f}'
                && digit_of(digits_text(value, places)[i] as u8) is Some,
    decreases places,
{
    lemma_digits_text_len(value, places);
    if places > 0 {
        lemma_digits_text_len(value / 32, (places - 1) as nat);
        lemma_digits_text_symbols(value / 32, (places - 1) as nat);
        let rest = digits_text(value / 32, (places - 1) as nat);
        let text = digits_text(value, places);
        assert forall|i: int| 0 <= i < places implies '\0' <= #[trigger] text[i] <= '\u{7f}'
            && digit_of(text[i] as u8) is Some by {
            if i < places - 1 {
                assert(text[i] == rest[i]);
            }
        }
    }
}

proof fn lemma_digits_number(value: nat, places: nat)
    ensures
        number_of(narrow(digits_text(value, places))) == value % pow(32, places) as nat,
        pow(32, places) > 0,
    decreases places,
{
    vstd::arithmetic::power::lemma_pow_positive(32, places);
    if places == 0 {
        vstd::arithmetic::power::lemma_pow0(32);
    } else {
        let fewer = (places - 1) as nat;
        lemma_digits_number(value / 32, fewer);
        let text = digits_text(value, places);
        let rest = digits_text(value / 32, fewer);
        assert(narrow(text).drop_last() =~= narrow(rest));
        assert(narrow(text).last() == symbol(value % 32) as u8);
        assert(digit_of(symbol(value % 32) as u8) == Some(value % 32));
        vstd::arithmetic::power::lemma_pow_adds(32, 1, fewer);
        vstd::arithmetic::power::lemma_pow1(32);
        let scale = pow(32, fewer) as nat;
        assert(value % (32 * scale) == 32 * ((value / 32) % scale) + value % 32)
            by {
            vstd::arithmetic::div_mod::lemma_mod_breakdown(value as int, 32, scale as int);
        }
    }
}

/// Reading the canonical text of an identifier gives that identifier back.
pub proof fn id_text_reads_back(id: PgTaskId)
    ensures
        parsed_id(id_text(id.ulid)) == Ok::<u128, Seq<char>>(id.ulid),
{
    let text = id_text(id.ulid);
    let places = ID_TEXT_LEN as nat;
    lemma_digits_text_len(id.ulid as nat, places);
    lemma_digits_text_symbols(id.ulid as nat, places);
    lemma_digits_number(id.ulid as nat, places);
    assert forall|i: int| 0 <= i < text.len() implies '\0' <= #[trigger] text[i] <= '\u{7f}' by {
        assert(digits_text(id.ulid as nat, places)[i] <= '\u{7f}');
    }
    vstd::utf8::is_ascii_chars_encode_utf8(text);
    assert(encode_utf8(text) =~= narrow(text));
    assert forall|i: int| 0 <= i < text.len() implies digit_of(
        #[trigger] encode_utf8(text)[i],
    ) is Some by {
        assert(digit_of(digits_text(id.ulid as nat, places)[i] as u8) is Some);
    }
    assert(pow(32, 26) > u128::MAX) by {
        reveal_with_fuel(pow, 27);
    }
    vstd::arithmetic::div_mod::lemma_small_mod(id.ulid as nat, pow(32, 26) as nat);
    vstd::arithmetic::div_mod::lemma_small_mod(id.ulid as nat, u128::MAX as nat + 1);
}

/// Two identifiers with the same text are the same identifier.
pub proof fn id_text_is_unique(a: PgTaskId, b: PgTaskId)
    requires
        id_text(a.ulid) == id_text(b.ulid),
    ensures
        a == b,
{
    id_text_reads_back(a);
    id_text_reads_back(b);
}

proof fn lemma_symbol(digit: nat)
    requires
        digit < 32,
    ensures
        "0123456789ABCDEFGHJKMNPQRSTVWXYZ"@.len() == 32,
        symbol(digit) == "0123456789ABCDEFGHJKMNPQRSTVWXYZ"@[digit as int],
{
    reveal_strlit("0123456789ABCDEFGHJKMNPQRSTVWXYZ");
}

proof fn lemma_digit_in_text(value: nat, places: nat, i: int)
    requires
        0 <= i < places,
    ensures
        digits_text(value, places).len() == places,
        pow(32, (places - 1 - i) as nat) > 0,
        digits_text(value, places)[i] == symbol(
            ((value as int / pow(32, (places - 1 - i) as nat)) % 32) as nat,
        ),
    decreases places,
{
    lemma_digits_text_len(value, places);
    vstd::arithmetic::power::lemma_pow_positive(32, (places - 1 - i) as nat);
    let fewer = (places - 1) as nat;
    lemma_digits_text_len(value / 32, fewer);
    if i == fewer {
        vstd::arithmetic::power::lemma_pow0(32);
        assert(value as int / pow(32, 0) == value);
    } else {
        lemma_digit_in_text(value / 32, fewer, i);
        let scale = pow(32, (fewer - 1 - i) as nat);
        vstd::arithmetic::power::lemma_pow_adds(32, 1, (fewer - 1 - i) as nat);
        vstd::arithmetic::power::lemma_pow1(32);
        vstd::arithmetic::div_mod::lemma_div_denominator(value as int, 32, scale);
        assert(pow(32, (places - 1 - i) as nat) == 32 * scale);
    }
}

/// The text of an identifier is its number written in base 32: 26 digits, the most significant
/// first, each as the symbol that stands for it in Crockford's alphabet.
pub proof fn id_text_is_base_32(ulid: u128)
    ensures
        id_text(ulid).len() == 26,
        forall|i: int|
            0 <= i < 26 ==> #[trigger] id_text(ulid)[i] == "0123456789ABCDEFGHJKMNPQRSTVWXYZ"@[(
            ulid as int / pow(32, (25 - i) as nat)) % 32],
{
    lemma_digits_text_len(ulid as nat, 26);
    assert forall|i: int| 0 <= i < 26 implies #[trigger] id_text(ulid)[i]
        == "0123456789ABCDEFGHJKMNPQRSTVWXYZ"@[(ulid as int / pow(32, (25 - i) as nat)) % 32] by {
        lemma_digit_in_text(ulid as nat, 26, i);
        lemma_symbol(((ulid as int / pow(32, (25 - i) as nat)) % 32) as nat);
    }
}

/// Which bytes stand for a digit: the symbols of Crockford's alphabet, and its letters in small
/// too. Both stand for the place that the symbol has there.
pub proof fn digits_are_read_by_the_alphabet(byte: u8)
    ensures
        digit_of(byte) is Some <==> {
            ||| 48 <= byte <= 57
            ||| 65 <= byte <= 90 && byte != 73 && byte != 76 && byte != 79 && byte != 85
            ||| 97 <= byte <= 122 && byte != 105 && byte != 108 && byte != 111 && byte != 117
        },
        digit_of(byte) matches Some(digit) ==> {
            &&& digit < 32
            &&& byte < 97 ==> "0123456789ABCDEFGHJKMNPQRSTVWXYZ"@[digit as int] as u8 == byte
            &&& byte >= 97 ==> "0123456789ABCDEFGHJKMNPQRSTVWXYZ"@[digit as int] as u8 == byte - 32
        },
{
    if let Some(digit) = digit_of(byte) {
        lemma_symbol(digit);
    }
}

/// The symbols of an identifier's text stand for the identifier's number itself.
pub proof fn id_text_stands_for_the_number(ulid: u128)
    ensures
        encode_utf8(id_text(ulid)).len() == 26,
        number_of(encode_utf8(id_text(ulid))) == ulid,
        forall|i: int|
            0 <= i < 26 ==> #[trigger] encode_utf8(id_text(ulid))[i] == id_text(ulid)[i] as u8,
{
    let text = id_text(ulid);
    lemma_digits_text_len(ulid as nat, 26);
    lemma_digits_text_symbols(ulid as nat, 26);
    lemma_digits_number(ulid as nat, 26);
    assert forall|i: int| 0 <= i < text.len() implies '\0' <= #[trigger] text[i] <= '\u{7f}' by {
        assert(digits_text(ulid as nat, 26)[i] <= '\u{7f}');
    }
    vstd::utf8::is_ascii_chars_encode_utf8(text);
    assert(encode_utf8(text) =~= narrow(text));
    assert(pow(32, 26) > u128::MAX) by {
        reveal_with_fuel(pow, 27);
    }
    vstd::arithmetic::div_mod::lemma_small_mod(ulid as nat, pow(32, 26) as nat);
}

/// Whether every byte stands for a digit.
spec fn all_digits(bytes: Seq<u8>) -> bool {
    forall|i: int| 0 <= i < bytes.len() ==> digit_of(#[trigger] bytes[i]) is Some
}

proof fn lemma_number_digit(bytes: Seq<u8>, k: nat)
    requires
        all_digits(bytes),
        k < bytes.len(),
    ensures
        pow(32, k) > 0,
        Some(((number_of(bytes) as int / pow(32, k)) % 32) as nat) == digit_of(
            bytes[bytes.len() - 1 - k],
        ),
    decreases k,
{
    vstd::arithmetic::power::lemma_pow_positive(32, k);
    let rest = bytes.drop_last();
    let low = digit_of(bytes.last())->0;
    assert(digit_of(bytes[bytes.len() - 1]) is Some);
    assert(low < 32);
    assert(number_of(bytes) == number_of(rest) * 32 + low);
    if k == 0 {
        vstd::arithmetic::power::lemma_pow0(32);
        assert(number_of(bytes) as int / 1 == number_of(bytes));
    } else {
        let fewer = (k - 1) as nat;
        assert(all_digits(rest)) by {
            assert(forall|i: int| 0 <= i < rest.len() ==> (#[trigger] rest[i]) == bytes[i]);
        }
        lemma_number_digit(rest, fewer);
        vstd::arithmetic::power::lemma_pow_adds(32, 1, fewer);
        vstd::arithmetic::power::lemma_pow1(32);
        vstd::arithmetic::div_mod::lemma_div_denominator(
            number_of(bytes) as int,
            32,
            pow(32, fewer),
        );
        assert(number_of(bytes) / 32 == number_of(rest));
        assert(rest[rest.len() - 1 - fewer] == bytes[bytes.len() - 1 - k]);
    }
}

proof fn lemma_number_first(bytes: Seq<u8>)
    requires
        bytes.len() > 0,
    ensures
        number_of(bytes) == digit_of(bytes[0])->0 * pow(32, (bytes.len() - 1) as nat) + number_of(
            bytes.drop_first(),
        ),
    decreases bytes.len(),
{
    let rest = bytes.drop_last();
    if rest.len() == 0 {
        vstd::arithmetic::power::lemma_pow0(32);
        reveal_with_fuel(number_of, 2);
    } else {
        lemma_number_first(rest);
        let first = digit_of(bytes[0])->0 as int;
        let scale = pow(32, (rest.len() - 1) as nat);
        assert(rest.drop_first() =~= bytes.drop_first().drop_last());
        assert(bytes.drop_first().last() == bytes.last());
        vstd::arithmetic::power::lemma_pow_adds(32, 1, (rest.len() - 1) as nat);
        vstd::arithmetic::power::lemma_pow1(32);
        assert(first * (32 * scale) == (first * scale) * 32) by (nonlinear_arith);
    }
}

/// What is read from a text: an identifier if and only if the text has 26 bytes and each of them
/// is a symbol, in either letter case; the length is looked at first. The identifier's own text
/// has the same symbols, in capitals, but for the first, of which only what fits is kept.
pub proof fn id_is_read_symbol_by_symbol(text: Seq<char>)
    ensures
        ({
            let bytes = encode_utf8(text);
            let symbols = forall|i: int|
                0 <= i < bytes.len() ==> digit_of(#[trigger] bytes[i]) is Some;
            &&& bytes.len() != 26 ==> parsed_id(text) == Err::<u128, _>("invalid length"@)
            &&& bytes.len() == 26 && !symbols ==> parsed_id(text) == Err::<u128, _>(
                "invalid character"@,
            )
            &&& parsed_id(text) is Ok <==> bytes.len() == 26 && symbols
            &&& parsed_id(text) matches Ok(ulid) ==> {
                &&& forall|i: int|
                    1 <= i < 26 ==> digit_of(#[trigger] bytes[i]) == digit_of(
                        encode_utf8(id_text(ulid))[i],
                    )
                &&& digit_of(encode_utf8(id_text(ulid))[0]) == Some(digit_of(bytes[0])->0 % 8)
            }
        }),
{
    let bytes = encode_utf8(text);
    if let Ok(ulid) = parsed_id(text) {
        assert(all_digits(bytes));
        let top = digit_of(bytes[0])->0;
        assert(digit_of(bytes[0]) is Some);
        let kept = bytes.update(0, (48 + top % 8) as u8);
        assert(digit_of(kept[0]) == Some(top % 8));
        assert(all_digits(kept));
        lemma_number_first(bytes);
        lemma_number_first(kept);
        assert(kept.drop_first() =~= bytes.drop_first());
        let scale = pow(32, 25);
        assert(8 * scale == u128::MAX as int + 1) by {
            reveal_with_fuel(pow, 26);
        }
        let low = number_of(bytes.drop_first()) as int;
        lemma_number_bound(bytes.drop_first());
        assert(number_of(bytes) == (top / 8) * (8 * scale) + number_of(kept)) by (nonlinear_arith)
            requires
                number_of(bytes) == top * scale + low,
                number_of(kept) == (top % 8) * scale + low,
        ;
        assert(0 <= number_of(kept) < 8 * scale) by (nonlinear_arith)
            requires
                number_of(kept) == (top % 8) * scale + low,
                0 <= low < scale,
        ;
        vstd::arithmetic::div_mod::lemma_fundamental_div_mod_converse(
            number_of(bytes) as int,
            8 * scale,
            (top / 8) as int,
            number_of(kept) as int,
        );
        assert(ulid == number_of(kept));
        id_text_stands_for_the_number(ulid);
        let own = encode_utf8(id_text(ulid));
        lemma_digits_text_symbols(ulid as nat, 26);
        assert(all_digits(own)) by {
            assert forall|i: int| 0 <= i < 26 implies digit_of(#[trigger] own[i]) is Some by {
                assert(digit_of(digits_text(ulid as nat, 26)[i] as u8) is Some);
            }
        }
        assert forall|i: int| 0 <= i < 26 implies digit_of(#[trigger] own[i]) == digit_of(
            kept[i],
        ) by {
            lemma_number_digit(own, (25 - i) as nat);
            lemma_number_digit(kept, (25 - i) as nat);
        }
        assert(digit_of(own[0]) == digit_of(kept[0]));
        assert forall|i: int| 1 <= i < 26 implies digit_of(#[trigger] bytes[i]) == digit_of(
            own[i],
        ) by {
            assert(digit_of(own[i]) == digit_of(kept[i]));
        }
    }
}

proof fn lemma_number_bound(bytes: Seq<u8>)
    requires
        all_digits(bytes),
    ensures
        number_of(bytes) < pow(32, bytes.len()),
    decreases bytes.len(),
{
    if bytes.len() == 0 {
        vstd::arithmetic::power::lemma_pow0(32);
    } else {
        let rest = bytes.drop_last();
        assert(all_digits(rest)) by {
            assert(forall|i: int| 0 <= i < rest.len() ==> (#[trigger] rest[i]) == bytes[i]);
        }
        lemma_number_bound(rest);
        assert(digit_of(bytes[bytes.len() - 1]) is Some);
        vstd::arithmetic::power::lemma_pow_adds(32, 1, rest.len());
        vstd::arithmetic::power::lemma_pow1(32);
    }
}

} // verus!
