//! Job identifiers: 128-bit values, their text form, and the keys and names
//! derived from them.

use vstd::prelude::*;
use vstd::string::*;
use vstd::arithmetic::div_mod::{lemma_mod_breakdown, lemma_small_mod};
use crate::text::joined;

verus! {

/// `uuid::Error`, the error of a parse. Nothing inside it is read.
#[verifier::external_type_specification]
#[verifier::external_body]
pub struct ExUuidError(uuid::Error);

/// The lower-case hexadecimal digit of a value below sixteen.
pub open spec fn hex_digit(value: int) -> char {
    if value < 10 {
        crate::text::digit_char(value)
    } else if value == 10 {
        'a'
    } else if value == 11 {
        'b'
    } else if value == 12 {
        'c'
    } else if value == 13 {
        'd'
    } else if value == 14 {
        'e'
    } else {
        'f'
    }
}

/// Sixteen to the power `n`.
pub open spec fn sixteen_to(n: nat) -> nat
    decreases n,
{
    if n == 0 {
        1
    } else {
        16 * sixteen_to((n - 1) as nat)
    }
}

/// The `k`-th of the 32 hexadecimal digits of `id`, the most significant
/// being the first.
pub open spec fn nibble(id: u128, k: int) -> int {
    (id as int / sixteen_to((31 - k) as nat) as int) % 16
}

/// How many hyphens stand before position `i` of the text form.
pub open spec fn hyphens_before(i: int) -> int {
    if i < 8 {
        0
    } else if i < 13 {
        1
    } else if i < 18 {
        2
    } else if i < 23 {
        3
    } else {
        4
    }
}

/// The text form of an identifier: 32 lower-case hexadecimal digits in groups
/// of 8, 4, 4, 4 and 12, with a hyphen between the groups.
pub open spec fn hyphenated(id: u128) -> Seq<char> {
    Seq::new(
        36,
        |i: int|
            if i == 8 || i == 13 || i == 18 || i == 23 {
                '-'
            } else {
                hex_digit(nibble(id, i - hyphens_before(i)))
            },
    )
}

/// The identifier that a text parses to, where it parses.
pub uninterp spec fn parsed_id(text: Seq<char>) -> Option<u128>;

/// `uuid::Uuid::new_v4`, read as a 128-bit value. The identifier is random;
/// all that is claimed is that it carries the version and variant bits of a
/// random identifier.
#[verifier::external_body]
fn uuid_random() -> (id: u128)
    ensures
        id & 0x0000_0000_0000_f000_c000_0000_0000_0000u128
            == 0x0000_0000_0000_4000_8000_0000_0000_0000u128,
{
    uuid::Uuid::new_v4().as_u128()
}

/// The identifier that a parse gave, if it gave one.
pub open spec fn found(parsed: Result<u128, uuid::Error>) -> Option<u128> {
    match parsed {
        Ok(id) => Some(id),
        Err(_) => None,
    }
}

/// `uuid::Uuid::parse_str`, its value read as a 128-bit value. The result is
/// a function of the text; the text form that `hyphenated` describes parses
/// back to the identifier it was made from.
#[verifier::external_body]
fn uuid_parse(text: &str) -> (parsed: Result<u128, uuid::Error>)
    ensures
        found(parsed) == parsed_id(text@),
        forall|id: u128| text@ == hyphenated(id) ==> found(parsed) == Some(id),
{
    match uuid::Uuid::parse_str(text) {
        Ok(id) => Ok(id.as_u128()),
        Err(e) => Err(e),
    }
}

/// The `Display` form of `uuid::Uuid`: the hyphenated lower-case form.
#[verifier::external_body]
fn uuid_text(id: u128) -> (text: String)
    ensures
        text@ == hyphenated(id),
{
    uuid::Uuid::from_u128(id).to_string()
}

/// A fresh random identifier.
pub fn new_job_id() -> (id: u128)
    ensures
        id & 0x0000_0000_0000_f000_c000_0000_0000_0000u128
            == 0x0000_0000_0000_4000_8000_0000_0000_0000u128,
{
    uuid_random()
}

/// The text form of an identifier.
pub fn format_id(id: u128) -> (text: String)
    ensures
        text@ == hyphenated(id),
{
    uuid_text(id)
}

/// Reads an identifier from text. The text form of an identifier reads back
/// as that identifier.
pub fn parse_id(text: &str) -> (id: Option<u128>)
    ensures
        id == parsed_id(text@),
        forall|x: u128| text@ == hyphenated(x) ==> id == Some(x),
{
    match uuid_parse(text) {
        Ok(id) => Some(id),
        Err(_) => None,
    }
}

/// The store key of a job's record.
pub open spec fn job_key_of(id: u128) -> Seq<char> {
    "job:"@ + hyphenated(id)
}

/// The name of the container that runs a job.
pub open spec fn container_name_of(id: u128) -> Seq<char> {
    "execution-"@ + hyphenated(id)
}

/// The store key of a job's record.
pub fn job_key(id: u128) -> (key: String)
    ensures
        key@ == job_key_of(id),
{
    let text = format_id(id);
    joined("job:", text.as_str())
}

/// The name of the container that runs a job.
pub fn container_name(id: u128) -> (name: String)
    ensures
        name@ == container_name_of(id),
{
    let text = format_id(id);
    joined("execution-", text.as_str())
}

proof fn lemma_sixteen_to_is_positive(n: nat)
    ensures
        sixteen_to(n) > 0,
    decreases n,
{
    if n > 0 {
        lemma_sixteen_to_is_positive((n - 1) as nat);
    }
}

proof fn lemma_nibble_is_a_digit(id: u128, k: int)
    requires
        0 <= k < 32,
    ensures
        0 <= nibble(id, k) < 16,
{
    lemma_sixteen_to_is_positive((31 - k) as nat);
    let power = sixteen_to((31 - k) as nat) as int;
    assert(0 <= id as int / power) by (nonlinear_arith)
        requires
            0 <= id as int,
            0 < power,
    ;
}

/// Identifiers that agree in their last `n` hexadecimal digits agree modulo
/// sixteen to the power `n`.
proof fn lemma_low_digits_decide(a: u128, b: u128, n: nat)
    requires
        n <= 32,
        forall|k: int| 32 - n <= k < 32 ==> nibble(a, k) == nibble(b, k),
    ensures
        a as int % sixteen_to(n) as int == b as int % sixteen_to(n) as int,
    decreases n,
{
    if n > 0 {
        let lower = (n - 1) as nat;
        lemma_low_digits_decide(a, b, lower);
        lemma_sixteen_to_is_positive(lower);
        let power = sixteen_to(lower) as int;
        assert(power * 16 == sixteen_to(n) as int) by (nonlinear_arith)
            requires
                sixteen_to(n) as int == 16 * power,
        ;
        lemma_mod_breakdown(a as int, power, 16);
        lemma_mod_breakdown(b as int, power, 16);
        assert(nibble(a, 32 - n) == nibble(b, 32 - n));
    }
}

/// The text form tells identifiers apart: two identifiers with the same text
/// form are the same identifier.
pub proof fn lemma_text_form_is_injective(a: u128, b: u128)
    requires
        hyphenated(a) == hyphenated(b),
    ensures
        a == b,
{
    assert forall|k: int| 0 <= k < 32 implies nibble(a, k) == nibble(b, k) by {
        let i = if k < 8 {
            k
        } else if k < 12 {
            k + 1
        } else if k < 16 {
            k + 2
        } else if k < 20 {
            k + 3
        } else {
            k + 4
        };
        assert(hyphenated(a)[i] == hex_digit(nibble(a, k)));
        assert(hyphenated(b)[i] == hex_digit(nibble(b, k)));
        lemma_nibble_is_a_digit(a, k);
        lemma_nibble_is_a_digit(b, k);
    }
    lemma_low_digits_decide(a, b, 32);
    assert(sixteen_to(32) == 0x1_0000_0000_0000_0000_0000_0000_0000_0000) by {
        reveal_with_fuel(sixteen_to, 33);
    }
    lemma_small_mod(a as nat, sixteen_to(32));
    lemma_small_mod(b as nat, sixteen_to(32));
}

/// Distinct identifiers have distinct store keys and distinct container
/// names.
pub proof fn lemma_keys_are_distinct(a: u128, b: u128)
    requires
        a != b,
    ensures
        hyphenated(a) != hyphenated(b),
        job_key_of(a) != job_key_of(b),
        container_name_of(a) != container_name_of(b),
{
    if hyphenated(a) == hyphenated(b) {
        lemma_text_form_is_injective(a, b);
    }
    let ka = job_key_of(a);
    let kb = job_key_of(b);
    if ka == kb {
        assert(hyphenated(a) =~= ka.subrange("job:"@.len() as int, ka.len() as int));
        assert(hyphenated(b) =~= kb.subrange("job:"@.len() as int, kb.len() as int));
    }
    let na = container_name_of(a);
    let nb = container_name_of(b);
    if na == nb {
        assert(hyphenated(a) =~= na.subrange("execution-"@.len() as int, na.len() as int));
        assert(hyphenated(b) =~= nb.subrange("execution-"@.len() as int, nb.len() as int));
    }
}

} // verus!
