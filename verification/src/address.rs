//! Bluetooth device addresses as text: six bytes, most significant first, each
//! as two upper-case hexadecimal digits, separated by colons.

use vstd::prelude::*;

use crate::text::push_char;

verus! {

/// The upper-case hexadecimal digit of a number below 16.
pub open spec fn hex_digit(n: int) -> char {
    if n < 10 {
        (n + 48) as char
    } else {
        (n + 55) as char
    }
}

/// The two hexadecimal digits of a byte, high nibble first.
pub open spec fn hex_pair(b: u8) -> Seq<char> {
    seq![hex_digit(b as int / 16), hex_digit(b as int % 16)]
}

/// The text of the first `n` bytes of an address.
pub open spec fn addr_text(a: Seq<u8>, n: nat) -> Seq<char>
    decreases n,
{
    if n == 0 {
        Seq::empty()
    } else if n == 1 {
        hex_pair(a[0])
    } else {
        addr_text(a, (n - 1) as nat) + seq![':'] + hex_pair(a[n - 1])
    }
}

/// The text of a whole six-byte address, such as `2A:CC:00:34:FA:00`.
pub open spec fn spec_fmt_addr(a: Seq<u8>) -> Seq<char> {
    addr_text(a, 6)
}

proof fn lemma_addr_text(a: Seq<u8>, n: nat)
    requires
        1 <= n,
    ensures
        addr_text(a, n).len() == 3 * n - 1,
        forall|k: int|
            0 <= k < n ==> addr_text(a, n)[3 * k] == hex_digit(#[trigger] a[k] as int / 16)
                && addr_text(a, n)[3 * k + 1] == hex_digit(a[k] as int % 16),
        forall|k: int| 0 <= k < n - 1 ==> #[trigger] addr_text(a, n)[3 * k + 2] == ':',
    decreases n,
{
    if n > 1 {
        lemma_addr_text(a, (n - 1) as nat);
        let prev = addr_text(a, (n - 1) as nat);
        assert forall|k: int| 0 <= k < n implies addr_text(a, n)[3 * k] == hex_digit(
            #[trigger] a[k] as int / 16,
        ) && addr_text(a, n)[3 * k + 1] == hex_digit(a[k] as int % 16) by {
            if k < n - 1 {
                assert(addr_text(a, n)[3 * k] == prev[3 * k]);
                assert(addr_text(a, n)[3 * k + 1] == prev[3 * k + 1]);
            }
        }
        assert forall|k: int| 0 <= k < n - 1 implies #[trigger] addr_text(a, n)[3 * k + 2]
            == ':' by {
            if k < n - 2 {
                assert(addr_text(a, n)[3 * k + 2] == prev[3 * k + 2]);
            }
        }
    }
}

proof fn lemma_hex_digit_injective(x: int, y: int)
    requires
        0 <= x < 16,
        0 <= y < 16,
        hex_digit(x) == hex_digit(y),
    ensures
        x == y,
{
}

proof fn lemma_hex_alphabet(n: int)
    requires
        0 <= n < 16,
    ensures
        hex_digit(n) == "0123456789ABCDEF"@[n],
{
    reveal_strlit("0123456789ABCDEF");
    if n == 0 {
    } else if n == 1 {
    } else if n == 2 {
    } else if n == 3 {
    } else if n == 4 {
    } else if n == 5 {
    } else if n == 6 {
    } else if n == 7 {
    } else if n == 8 {
    } else if n == 9 {
    } else if n == 10 {
    } else if n == 11 {
    } else if n == 12 {
    } else if n == 13 {
    } else if n == 14 {
    } else {
    }
}

/// Byte `k` of an address is written at positions `3k` and `3k + 1` of its text, as the
/// upper-case hexadecimal digits (`0123456789ABCDEF`) of its high and low nibble.
pub proof fn law_fmt_addr_digits(a: [u8; 6], k: int)
    requires
        0 <= k < 6,
    ensures
        spec_fmt_addr(a@)[3 * k] == "0123456789ABCDEF"@[a@[k] as int / 16],
        spec_fmt_addr(a@)[3 * k + 1] == "0123456789ABCDEF"@[a@[k] as int % 16],
{
    lemma_addr_text(a@, 6);
    lemma_hex_alphabet(a@[k] as int / 16);
    lemma_hex_alphabet(a@[k] as int % 16);
}

/// Every formatted address is 17 characters long: six digit pairs and five colons, with a
/// colon after each pair but the last.
pub proof fn law_fmt_addr_shape(a: [u8; 6])
    ensures
        spec_fmt_addr(a@).len() == 17,
        forall|k: int| 0 <= k < 5 ==> #[trigger] spec_fmt_addr(a@)[3 * k + 2] == ':',
{
    lemma_addr_text(a@, 6);
}

/// Distinct addresses are formatted to distinct texts: the text determines the address.
pub proof fn law_fmt_addr_injective(a: [u8; 6], b: [u8; 6])
    requires
        spec_fmt_addr(a@) == spec_fmt_addr(b@),
    ensures
        a == b,
{
    lemma_addr_text(a@, 6);
    lemma_addr_text(b@, 6);
    assert forall|k: int| 0 <= k < 6 implies a@[k] == b@[k] by {
        let ta = spec_fmt_addr(a@);
        assert(ta[3 * k] == hex_digit(a@[k] as int / 16));
        assert(ta[3 * k + 1] == hex_digit(a@[k] as int % 16));
        assert(spec_fmt_addr(b@)[3 * k] == hex_digit(b@[k] as int / 16));
        assert(spec_fmt_addr(b@)[3 * k + 1] == hex_digit(b@[k] as int % 16));
        lemma_hex_digit_injective(a@[k] as int / 16, b@[k] as int / 16);
        lemma_hex_digit_injective(a@[k] as int % 16, b@[k] as int % 16);
    }
    assert(a@ =~= b@);
    vstd::array::axiom_array_ext_equal(a, b);
}

fn hex_char(n: u8) -> (c: char)
    requires
        n < 16,
    ensures
        c == hex_digit(n as int),
{
    if n < 10 {
        (n + 48) as char
    } else {
        (n + 55) as char
    }
}

/// Formats an address as six upper-case hexadecimal pairs joined by colons.
#[must_use]
pub fn fmt_addr(addr: [u8; 6]) -> (s: String)
    ensures
        s@ == spec_fmt_addr(addr@),
{
    let mut s = String::new();
    let mut i: usize = 0;
    while i < 6
        invariant
            i <= 6,
            s@ == addr_text(addr@, i as nat),
        decreases 6 - i,
    {
        if i > 0 {
            push_char(&mut s, ':');
        }
        let b = addr[i];
        push_char(&mut s, hex_char(b / 16));
        push_char(&mut s, hex_char(b % 16));
        assert(s@ =~= addr_text(addr@, (i + 1) as nat));
        i = i + 1;
    }
    s
}

} // verus!
