//! Text of the plugin: strings built a character at a time, the UTF-8 payloads
//! that string reads and writes exchange with a device, and the names of the
//! runtime's worker threads.

use vstd::prelude::*;
use vstd::string::StringExecFns;
use vstd::utf8::*;

verus! {

/// `String::push`: appends one character at the end of the string. The
/// contract claims exactly that, as std documents it.
#[verifier::external_body]
pub(crate) fn push_char(s: &mut String, c: char)
    ensures
        final(s)@ == old(s)@.push(c),
{
    s.push(c);
}

/// `String::from_utf8`: the text that a byte vector encodes, when it is valid UTF-8.
/// The contract claims what std documents: the conversion succeeds exactly on valid UTF-8
/// and then yields the characters that the bytes encode; the error value is dropped.
#[verifier::external_body]
fn string_from_utf8(bytes: Vec<u8>) -> (res: Option<String>)
    ensures
        res is Some <==> valid_utf8(bytes@),
        res matches Some(s) ==> s@ == decode_utf8(bytes@),
{
    String::from_utf8(bytes).ok()
}

/// The bytes that a string write sends: the UTF-8 encoding of the text.
pub fn string_payload(data: &str) -> (bytes: Vec<u8>)
    ensures
        bytes@ == encode_utf8(data@),
{
    vstd::slice::slice_to_vec(data.as_bytes())
}

/// The text that a string read gives back: the characters that the received bytes encode.
/// The bytes must be valid UTF-8.
pub fn payload_string(data: Vec<u8>) -> (text: String)
    requires
        valid_utf8(data@),
    ensures
        text@ == decode_utf8(data@),
{
    match string_from_utf8(data) {
        Some(text) => text,
        None => {
            assert(false);
            String::new()
        },
    }
}

/// Sending a string and reading the same bytes back gives the string again.
pub proof fn law_payload_roundtrip(text: Seq<char>)
    ensures
        valid_utf8(encode_utf8(text)),
        decode_utf8(encode_utf8(text)) == text,
{
    encode_utf8_valid_utf8(text);
    encode_utf8_decode_utf8(text);
}

/// Reading valid bytes as a string and sending that string gives the same bytes again.
pub proof fn law_text_roundtrip(bytes: Seq<u8>)
    requires
        valid_utf8(bytes),
    ensures
        encode_utf8(decode_utf8(bytes)) == bytes,
{
    decode_utf8_encode_utf8(bytes);
}

/// The decimal digit character of a number below ten.
pub open spec fn decimal_digit(d: int) -> char {
    (d + 48) as char
}

/// The decimal notation of a number, without sign or leading zeros.
pub open spec fn decimal_text(n: nat) -> Seq<char>
    decreases n,
{
    if n < 10 {
        seq![decimal_digit(n as int)]
    } else {
        decimal_text(n / 10).push(decimal_digit((n % 10) as int))
    }
}

fn push_decimal(s: &mut String, n: usize)
    ensures
        final(s)@ == old(s)@ + decimal_text(n as nat),
    decreases n,
{
    if n >= 10 {
        push_decimal(s, n / 10);
    }
    let d: u8 = (n % 10) as u8;
    push_char(s, (d + 48) as char);
    assert(final(s)@ =~= old(s)@ + decimal_text(n as nat));
}

/// The name given to the `id`-th worker thread of the plugin's runtime.
pub open spec fn spec_thread_name(id: nat) -> Seq<char> {
    "intiface-thread-"@ + decimal_text(id)
}

/// The name of a worker thread of the plugin's runtime, from the thread's sequence number.
pub fn runtime_thread_name(id: usize) -> (name: String)
    ensures
        name@ == spec_thread_name(id as nat),
{
    let mut name = String::from_str("intiface-thread-");
    push_decimal(&mut name, id);
    name
}

proof fn lemma_decimal_len(n: nat)
    ensures
        decimal_text(n).len() >= 1,
        n >= 10 ==> decimal_text(n).len() >= 2,
    decreases n,
{
    if n >= 10 {
        lemma_decimal_len(n / 10);
    }
}

proof fn lemma_decimal_injective(n: nat, m: nat)
    requires
        decimal_text(n) == decimal_text(m),
    ensures
        n == m,
    decreases n,
{
    lemma_decimal_len(n);
    lemma_decimal_len(m);
    if n < 10 && m < 10 {
        assert(decimal_text(n) == seq![decimal_digit(n as int)]);
        assert(decimal_text(m) == seq![decimal_digit(m as int)]);
        assert(seq![decimal_digit(n as int)][0] == decimal_digit(n as int));
        assert(seq![decimal_digit(m as int)][0] == decimal_digit(m as int));
    } else if n >= 10 && m >= 10 {
        let dn = decimal_text(n);
        let dm = decimal_text(m);
        assert(dn.last() == decimal_digit((n % 10) as int));
        assert(dm.last() == decimal_digit((m % 10) as int));
        assert(decimal_text(n / 10) =~= dn.drop_last());
        assert(decimal_text(m / 10) =~= dm.drop_last());
        lemma_decimal_injective(n / 10, m / 10);
        assert(n % 10 == m % 10);
        assert(n == (n / 10) * 10 + n % 10);
        assert(m == (m / 10) * 10 + m % 10);
        assert(n == m);
    } else {
        assert(decimal_text(n).len() != decimal_text(m).len());
    }
}

proof fn lemma_decimal_alphabet(d: int)
    requires
        0 <= d < 10,
    ensures
        decimal_digit(d) == "0123456789"@[d],
{
    reveal_strlit("0123456789");
    if d == 0 {
    } else if d == 1 {
    } else if d == 2 {
    } else if d == 3 {
    } else if d == 4 {
    } else if d == 5 {
    } else if d == 6 {
    } else if d == 7 {
    } else if d == 8 {
    } else {
    }
}

/// A thread's name is `intiface-thread-` followed by its number in decimal: the last character
/// is the digit (`0123456789`) of the number's last decimal place, and what comes before it is
/// the name of the number with that place removed, or the bare prefix for a one-digit number.
pub proof fn law_thread_name_decimal(id: nat)
    ensures
        spec_thread_name(id).len() > 16,
        spec_thread_name(id).take(16) == "intiface-thread-"@,
        spec_thread_name(id).last() == "0123456789"@[(id % 10) as int],
        id < 10 ==> spec_thread_name(id).drop_last() == "intiface-thread-"@,
        id >= 10 ==> spec_thread_name(id).drop_last() == spec_thread_name(id / 10),
{
    reveal_strlit("intiface-thread-");
    lemma_decimal_len(id);
    lemma_decimal_alphabet((id % 10) as int);
    let p = "intiface-thread-"@;
    assert(spec_thread_name(id).take(16) =~= p);
    if id < 10 {
        assert(spec_thread_name(id).drop_last() =~= p);
    } else {
        assert(spec_thread_name(id).drop_last() =~= p + decimal_text(id / 10));
    }
}

/// Worker threads with different sequence numbers get different names.
pub proof fn law_thread_names_distinct(a: nat, b: nat)
    requires
        a != b,
    ensures
        spec_thread_name(a) != spec_thread_name(b),
{
    if spec_thread_name(a) == spec_thread_name(b) {
        let p = "intiface-thread-"@;
        assert(decimal_text(a) =~= spec_thread_name(a).skip(p.len() as int));
        assert(decimal_text(b) =~= spec_thread_name(b).skip(p.len() as int));
        lemma_decimal_injective(a, b);
    }
}

} // verus!
