//! The two uses of JSON: the text of an origin identity, and a string looked up in a payload.

use vstd::prelude::*;
use crate::text::opt_text;

verus! {

/// Why `serde_json` failed.
#[verifier::external_type_specification]
#[verifier::external_body]
pub struct ExJsonError(serde_json::Error);

/// A digit, from `0` to `9` and on from `a`.
pub open spec fn digit(value: int) -> char {
    if value < 10 {
        (48 + value) as char
    } else {
        (87 + value) as char
    }
}

/// A number in decimal, without leading zeros.
pub open spec fn decimal(value: nat) -> Seq<char>
    decreases value,
{
    if value < 10 {
        seq![digit(value as int)]
    } else {
        decimal(value / 10).push(digit((value % 10) as int))
    }
}

/// How one character is written inside a JSON string.
pub open spec fn escaped(c: char) -> Seq<char> {
    if c == '"' || c == '\\' {
        seq!['\\', c]
    } else if c == '\u{8}' {
        seq!['\\', 'b']
    } else if c == '\u{c}' {
        seq!['\\', 'f']
    } else if c == '\n' {
        seq!['\\', 'n']
    } else if c == '\r' {
        seq!['\\', 'r']
    } else if c == '\t' {
        seq!['\\', 't']
    } else if (c as int) < 32 {
        seq!['\\', 'u', '0', '0', digit(c as int / 16), digit(c as int % 16)]
    } else {
        seq![c]
    }
}

pub open spec fn escaped_all(text: Seq<char>) -> Seq<char>
    decreases text.len(),
{
    if text.len() == 0 {
        Seq::empty()
    } else {
        escaped(text[0]) + escaped_all(text.drop_first())
    }
}

pub open spec fn json_string(text: Seq<char>) -> Seq<char> {
    seq!['"'] + escaped_all(text) + seq!['"']
}

/// The compact JSON array of a session, its generation and a handoff.
pub open spec fn identity_text(
    native_session_id: Seq<char>,
    generation: u64,
    handoff_id: Seq<char>,
) -> Seq<char> {
    seq!['['] + json_string(native_session_id) + seq![','] + decimal(generation as nat) + seq![',']
        + json_string(handoff_id) + seq![']']
}

/// `serde_json::to_string` on the tuple of the three arguments: it cannot fail on text and a
/// number, and writes them as a compact JSON array. Within strings it escapes the quote, the
/// backslash and the control characters below the space, and leaves every other character alone.
#[verifier::external_body]
pub(crate) fn identity_json(native_session_id: &str, generation: u64, handoff_id: &str) -> (text:
    Result<String, serde_json::Error>)
    ensures
        text is Ok,
        text->Ok_0@ == identity_text(native_session_id@, generation, handoff_id@),
{
    serde_json::to_string(&(native_session_id, generation, handoff_id))
}

/// What a JSON text holds at a JSON pointer, as far as that is a string; where `text` is not JSON,
/// the message that says why.
pub uninterp spec fn json_text_at(text: Seq<char>, pointer: Seq<char>) -> Result<
    Option<Seq<char>>,
    Seq<char>,
>;

/// `serde_json::from_str` into a `serde_json::Value`, then `Value::pointer` and `Value::as_str` on
/// it; an error is handed out as the text that it displays. The contract only says that the
/// outcome depends on the two arguments alone.
#[verifier::external_body]
pub(crate) fn json_string_at(text: &str, pointer: &str) -> (found: Result<Option<String>, String>)
    ensures
        match found {
            Ok(value) => json_text_at(text@, pointer@) == Ok::<_, Seq<char>>(opt_text(value)),
            Err(message) => json_text_at(text@, pointer@) == Err::<Option<Seq<char>>, _>(message@),
        },
{
    let value: serde_json::Value = serde_json::from_str(text).map_err(|error| error.to_string())?;
    Ok(value.pointer(pointer).and_then(serde_json::Value::as_str).map(str::to_owned))
}

/// Digits of a base up to sixteen are told apart by their value, and none is a comma.
proof fn lemma_digit(a: int, b: int)
    requires
        0 <= a < 16,
        0 <= b < 16,
    ensures
        digit(a) == digit(b) <==> a == b,
        digit(a) != ',',
{
}

/// An escaped character is not empty, and does not begin with a quote.
proof fn lemma_escaped_start(c: char)
    ensures
        escaped(c).len() > 0,
        escaped(c)[0] != '"',
{
}

/// What follows an escaped character in a text does not change which character it is.
proof fn lemma_escaped_prefix(a: char, b: char, x: Seq<char>, y: Seq<char>)
    requires
        escaped(a) + x == escaped(b) + y,
    ensures
        a == b,
        x == y,
{
    let left = escaped(a) + x;
    let right = escaped(b) + y;
    assert(left[0] == escaped(a)[0]);
    assert(right[0] == escaped(b)[0]);
    if escaped(a).len() > 1 && escaped(b).len() > 1 {
        assert(left[1] == escaped(a)[1]);
        assert(right[1] == escaped(b)[1]);
        if escaped(a)[1] == 'u' {
            assert(left[4] == escaped(a)[4] && left[5] == escaped(a)[5]);
            assert(right[4] == escaped(b)[4] && right[5] == escaped(b)[5]);
            lemma_digit(a as int / 16, b as int / 16);
            lemma_digit(a as int % 16, b as int % 16);
        }
    }
    assert(a == b);
    assert(x =~= left.skip(escaped(a).len() as int));
    assert(y =~= right.skip(escaped(b).len() as int));
}

/// An escaped text ends at the first quote that follows it, so it can be read back.
proof fn lemma_escaped_all_prefix(a: Seq<char>, b: Seq<char>, x: Seq<char>, y: Seq<char>)
    requires
        escaped_all(a) + seq!['"'] + x == escaped_all(b) + seq!['"'] + y,
    ensures
        a == b,
        x == y,
    decreases a.len(),
{
    let left = escaped_all(a) + seq!['"'] + x;
    let right = escaped_all(b) + seq!['"'] + y;
    if a.len() == 0 || b.len() == 0 {
        if a.len() > 0 {
            lemma_escaped_start(a[0]);
            assert(left[0] == escaped(a[0])[0]);
            assert(right[0] == '"');
        }
        if b.len() > 0 {
            lemma_escaped_start(b[0]);
            assert(right[0] == escaped(b[0])[0]);
            assert(left[0] == '"');
        }
        assert(a =~= b);
        assert(x =~= left.skip(1));
        assert(y =~= right.skip(1));
    } else {
        let rest_a = escaped_all(a.drop_first()) + seq!['"'] + x;
        let rest_b = escaped_all(b.drop_first()) + seq!['"'] + y;
        assert(left =~= escaped(a[0]) + rest_a);
        assert(right =~= escaped(b[0]) + rest_b);
        lemma_escaped_prefix(a[0], b[0], rest_a, rest_b);
        lemma_escaped_all_prefix(a.drop_first(), b.drop_first(), x, y);
        assert(a =~= seq![a[0]] + a.drop_first());
        assert(b =~= seq![b[0]] + b.drop_first());
    }
}

/// A decimal is not empty, has no comma in it, and stands for one number only.
proof fn lemma_decimal(a: nat)
    ensures
        decimal(a).len() > 0,
        forall|i: int| 0 <= i < decimal(a).len() ==> decimal(a)[i] != ',',
    decreases a,
{
    lemma_digit((a % 10) as int, 0);
    if a >= 10 {
        lemma_decimal(a / 10);
    }
}

proof fn lemma_decimal_unique(a: nat, b: nat)
    requires
        decimal(a) == decimal(b),
    ensures
        a == b,
    decreases a,
{
    lemma_decimal(a / 10);
    lemma_decimal(b / 10);
    lemma_digit((a % 10) as int, (b % 10) as int);
    assert(decimal(a).last() == digit((a % 10) as int));
    assert(decimal(b).last() == digit((b % 10) as int));
    if a >= 10 && b >= 10 {
        assert(decimal(a).drop_last() =~= decimal(a / 10));
        assert(decimal(b).drop_last() =~= decimal(b / 10));
        lemma_decimal_unique(a / 10, b / 10);
    }
}

/// A decimal ends at the first comma that follows it.
proof fn lemma_decimal_prefix(a: nat, b: nat, x: Seq<char>, y: Seq<char>)
    requires
        decimal(a) + seq![','] + x == decimal(b) + seq![','] + y,
    ensures
        a == b,
        x == y,
{
    let left = decimal(a) + seq![','] + x;
    let right = decimal(b) + seq![','] + y;
    lemma_decimal(a);
    lemma_decimal(b);
    let m = decimal(a).len() as int;
    let n = decimal(b).len() as int;
    assert(left[m] == ',' && right[n] == ',');
    if m < n {
        assert(right[m] == decimal(b)[m]);
    }
    if n < m {
        assert(left[n] == decimal(a)[n]);
    }
    assert(decimal(a) =~= left.take(m));
    assert(decimal(b) =~= right.take(n));
    lemma_decimal_unique(a, b);
    assert(x =~= left.skip(m + 1));
    assert(y =~= right.skip(n + 1));
}

/// The text of an identity from the quote that opens its handoff.
spec fn from_handoff(handoff: Seq<char>) -> Seq<char> {
    seq!['"'] + (escaped_all(handoff) + seq!['"'] + seq![']'])
}

/// The text of an identity from the comma before its generation.
spec fn from_generation(generation: u64, handoff: Seq<char>) -> Seq<char> {
    seq![','] + (decimal(generation as nat) + seq![','] + from_handoff(handoff))
}

proof fn lemma_regroup(a: Seq<char>, b: Seq<char>, c: Seq<char>)
    ensures
        seq!['['] + (seq!['"'] + a + seq!['"']) + seq![','] + b + seq![','] + (seq!['"'] + c
            + seq!['"']) + seq![']'] == seq!['[', '"'] + (a + seq!['"'] + (seq![','] + (b + seq![',']
            + (seq!['"'] + (c + seq!['"'] + seq![']']))))),
{
    assert(seq!['['] + (seq!['"'] + a + seq!['"']) + seq![','] + b + seq![','] + (seq!['"'] + c
        + seq!['"']) + seq![']'] =~= seq!['[', '"'] + (a + seq!['"'] + (seq![','] + (b + seq![',']
        + (seq!['"'] + (c + seq!['"'] + seq![']']))))));
}

proof fn lemma_cancel(prefix: Seq<char>, x: Seq<char>, y: Seq<char>)
    requires
        prefix + x == prefix + y,
    ensures
        x == y,
{
    assert(x =~= (prefix + x).skip(prefix.len() as int));
    assert(y =~= (prefix + y).skip(prefix.len() as int));
}

/// An identity is unambiguous: its text tells the session, the generation and the handoff apart,
/// whatever characters they are made of.
pub proof fn identities_are_unambiguous(
    session: Seq<char>,
    generation: u64,
    handoff: Seq<char>,
    other_session: Seq<char>,
    other_generation: u64,
    other_handoff: Seq<char>,
)
    ensures
        identity_text(session, generation, handoff) == identity_text(
            other_session,
            other_generation,
            other_handoff,
        ) <==> session == other_session && generation == other_generation && handoff
            == other_handoff,
{
    if identity_text(session, generation, handoff) == identity_text(
        other_session,
        other_generation,
        other_handoff,
    ) {
        lemma_regroup(escaped_all(session), decimal(generation as nat), escaped_all(handoff));
        lemma_regroup(
            escaped_all(other_session),
            decimal(other_generation as nat),
            escaped_all(other_handoff),
        );
        lemma_cancel(
            seq!['[', '"'],
            escaped_all(session) + seq!['"'] + from_generation(generation, handoff),
            escaped_all(other_session) + seq!['"'] + from_generation(
                other_generation,
                other_handoff,
            ),
        );
        lemma_escaped_all_prefix(
            session,
            other_session,
            from_generation(generation, handoff),
            from_generation(other_generation, other_handoff),
        );
        lemma_cancel(
            seq![','],
            decimal(generation as nat) + seq![','] + from_handoff(handoff),
            decimal(other_generation as nat) + seq![','] + from_handoff(other_handoff),
        );
        lemma_decimal_prefix(
            generation as nat,
            other_generation as nat,
            from_handoff(handoff),
            from_handoff(other_handoff),
        );
        lemma_cancel(
            seq!['"'],
            escaped_all(handoff) + seq!['"'] + seq![']'],
            escaped_all(other_handoff) + seq!['"'] + seq![']'],
        );
        lemma_escaped_all_prefix(handoff, other_handoff, seq![']'], seq![']']);
    }
}

/// The number that a text of decimal digits stands for.
pub open spec fn decimal_value(text: Seq<char>) -> int
    decreases text.len(),
{
    if text.len() == 0 {
        0
    } else {
        10 * decimal_value(text.drop_last()) + (text.last() as int - '0' as int)
    }
}

/// A decimal is read back as the number it was written for, is made of the digits from `0` to `9`,
/// and begins with `0` only where it is that.
pub proof fn a_decimal_is_read_back(value: nat)
    ensures
        decimal_value(decimal(value)) == value,
        decimal(value).len() > 0,
        forall|i: int| 0 <= i < decimal(value).len() ==> '0' <= #[trigger] decimal(value)[i] <= '9',
        decimal(value)[0] == '0' ==> value == 0 && decimal(value).len() == 1,
    decreases value,
{
    reveal_with_fuel(decimal_value, 2);
    if value < 10 {
        assert(decimal(value).drop_last() =~= Seq::<char>::empty());
        assert(decimal(value).last() == digit(value as int));
    } else {
        a_decimal_is_read_back(value / 10);
        assert(decimal(value).drop_last() =~= decimal(value / 10));
        assert(decimal(value).last() == digit((value % 10) as int));
        assert(decimal(value)[0] == decimal(value / 10)[0]);
    }
}

} // verus!
