use vstd::prelude::*;

use crate::rpc::RpcError;

verus! {

/// The status value that DCE RPC calls report on success.
pub const ERROR_STATUS_OK: u32 = 0;

/// The status number carried in the low twelve bits of a status code.
pub open spec fn status_number(code: u32) -> int {
    (code % 0x1000) as int
}

/// The upper-case hexadecimal digit for `d` (0 <= d < 16).
pub open spec fn hex_digit(d: int) -> char {
    if d < 10 {
        (48 + d) as char
    } else {
        (55 + d) as char
    }
}

/// The value of an upper-case hexadecimal digit.
pub open spec fn hex_digit_value(c: char) -> int {
    if c <= '9' {
        c as int - 48
    } else {
        c as int - 55
    }
}

/// The upper-case hexadecimal digits of `n`, most significant first, without leading zeros.
pub open spec fn hex_digits(n: nat) -> Seq<char>
    decreases n,
{
    if n < 16 {
        seq![hex_digit(n as int)]
    } else {
        hex_digits(n / 16) + seq![hex_digit((n % 16) as int)]
    }
}

/// The number that a string of upper-case hexadecimal digits stands for.
pub open spec fn hex_value(s: Seq<char>) -> int
    decreases s.len(),
{
    if s.len() == 0 {
        0
    } else {
        16 * hex_value(s.drop_last()) + hex_digit_value(s.last())
    }
}

/// `s` right-aligned in a field of `width` characters, padded with spaces on the left.
pub open spec fn pad_left(s: Seq<char>, width: nat) -> Seq<char> {
    if s.len() >= width {
        s
    } else {
        Seq::new((width - s.len()) as nat, |i: int| ' ') + s
    }
}

/// `code` as `0x` and upper-case hexadecimal digits, right-aligned in ten characters.
pub open spec fn hex_field(code: u32) -> Seq<char> {
    pad_left(seq!['0', 'x'] + hex_digits(code as nat), 10)
}

/// The message of a failed DCE RPC call: the text that the table holds for the status
/// number, the code in hexadecimal, and the name of the call.
pub open spec fn failure_message(messages: Seq<&str>, code: u32, func: Seq<char>) -> Seq<char> {
    "error "@ + messages[status_number(code) - 1]@ + " ("@ + hex_field(code) + ") in "@ + func
}

fn hex_digit_char(d: u32) -> (c: char)
    requires
        d < 16,
    ensures
        c == hex_digit(d as int),
{
    if d < 10 {
        ((d + 48) as u8) as char
    } else {
        ((d + 55) as u8) as char
    }
}

fn push_hex_digits(n: u32, out: &mut Vec<char>)
    ensures
        final(out)@ == old(out)@ + hex_digits(n as nat),
    decreases n,
{
    let ghost before = out@;
    if n >= 16 {
        push_hex_digits(n / 16, out);
    }
    out.push(hex_digit_char(n % 16));
    assert(out@ =~= before + hex_digits(n as nat));
}

/// Trusted: std's `String::from_iter`, given a vector of characters, builds the string that
/// holds exactly those characters in that order; nothing here proves it.
#[verifier::external_body]
fn string_from_chars(chars: Vec<char>) -> (s: String)
    ensures
        s@ == chars@,
{
    String::from_iter(chars)
}

/// Formats `code` as `0x` followed by its upper-case hexadecimal digits, right-aligned in a
/// field of ten characters.
pub fn format_hex_field(code: u32) -> (s: String)
    ensures
        s@ == hex_field(code),
{
    let mut digits: Vec<char> = Vec::new();
    push_hex_digits(code, &mut digits);
    assert(digits@ =~= hex_digits(code as nat));
    let mut out: Vec<char> = Vec::new();
    let pad: usize = if digits.len() < 8 {
        8 - digits.len()
    } else {
        0
    };
    let mut i: usize = 0;
    while i < pad
        invariant
            i <= pad,
            out@ =~= Seq::new(i as nat, |j: int| ' '),
        decreases pad - i,
    {
        out.push(' ');
        i = i + 1;
    }
    out.push('0');
    out.push('x');
    let mut k: usize = 0;
    let ghost prefix = out@;
    while k < digits.len()
        invariant
            k <= digits.len(),
            out@ =~= prefix + digits@.take(k as int),
        decreases digits.len() - k,
    {
        out.push(digits[k]);
        assert(digits@.take(k + 1) =~= digits@.take(k as int).push(digits@[k as int]));
        k = k + 1;
    }
    assert(digits@.take(digits.len() as int) =~= digits@);
    assert(out@ =~= hex_field(code));
    string_from_chars(out)
}

/// The text that the message table holds for the status number of `code`.
pub fn error_code(messages: &[&str], code: u32) -> (message: String)
    requires
        1 <= status_number(code) <= messages@.len(),
    ensures
        message@ == messages@[status_number(code) - 1]@,
{
    assert(code & 0xfff == code % 0x1000) by (bit_vector);
    let status_code = code & 0xfff;
    messages[(status_code - 1) as usize].to_owned()
}

/// Sixteen to the power `k`.
pub open spec fn pow16(k: nat) -> nat
    decreases k,
{
    if k == 0 {
        1
    } else {
        16 * pow16((k - 1) as nat)
    }
}

/// A number below `16^k` has at most `k` hexadecimal digits.
pub proof fn lemma_hex_digits_len(n: nat, k: nat)
    requires
        k >= 1,
        n < pow16(k),
    ensures
        1 <= hex_digits(n).len() <= k,
    decreases k,
{
    if n >= 16 {
        assert(k >= 2) by {
            if k == 1 {
                assert(pow16(1) == 16 * pow16(0));
            }
        }
        assert(pow16(k) == 16 * pow16((k - 1) as nat));
        assert(n / 16 < pow16((k - 1) as nat));
        lemma_hex_digits_len(n / 16, (k - 1) as nat);
    }
}

/// Reading the hexadecimal digits of `n` back gives `n`.
pub proof fn law_hex_digits_value(n: nat)
    ensures
        hex_value(hex_digits(n)) == n,
    decreases n,
{
    if n < 16 {
        let s = hex_digits(n);
        assert(s.drop_last() =~= Seq::<char>::empty());
        assert(hex_value(Seq::<char>::empty()) == 0);
        assert(hex_digit_value(hex_digit(n as int)) == n);
        assert(hex_value(s) == 16 * hex_value(s.drop_last()) + hex_digit_value(s.last()));
    } else {
        law_hex_digits_value(n / 16);
        let s = hex_digits(n);
        assert(s.drop_last() =~= hex_digits(n / 16));
        assert(s.last() == hex_digit((n % 16) as int));
        assert(hex_digit_value(hex_digit((n % 16) as int)) == n % 16);
        assert(16 * (n / 16) + n % 16 == n);
    }
}

/// The hexadecimal field of a failure message is always ten characters: spaces, then `0x`,
/// then digits that read back as the code.
pub proof fn law_hex_field_names_code(code: u32)
    ensures
        hex_field(code).len() == 10,
        ({
            let f = hex_field(code);
            let k = 8 - hex_digits(code as nat).len();
            &&& 0 <= k <= 7
            &&& forall|i: int| 0 <= i < k ==> f[i] == ' '
            &&& f[k] == '0'
            &&& f[k + 1] == 'x'
            &&& hex_value(f.subrange(k + 2, 10)) == code
        }),
{
    assert(pow16(8) == 0x1_0000_0000) by {
        reveal_with_fuel(pow16, 9);
    }
    lemma_hex_digits_len(code as nat, 8);
    law_hex_digits_value(code as nat);
    let d = hex_digits(code as nat);
    let f = hex_field(code);
    let k = 8 - d.len();
    assert(f.subrange(k + 2, 10) =~= d);
}

/// The status number of a code is its low twelve bits: a code below 0x1000 is its own status
/// number, and adding 0x1000 to a code leaves its status number unchanged.
pub proof fn law_status_number_low_twelve_bits(code: u32)
    ensures
        0 <= status_number(code) < 0x1000,
        status_number(code) == (code & 0xfff) as int,
        code < 0x1000 ==> status_number(code) == code,
        code >= 0x1000 ==> status_number(code) == status_number((code - 0x1000) as u32),
{
    assert(code & 0xfff == code % 0x1000) by (bit_vector);
}

/// The message that `error_code` gives for a code is the table entry whose 1-based position
/// is the code's low twelve bits; codes that agree in their low twelve bits get the same
/// message.
pub proof fn law_error_code_entry(messages: Seq<&str>, code: u32, other: u32)
    requires
        1 <= (code & 0xfff) <= messages.len(),
        code & 0xfff == other & 0xfff,
    ensures
        1 <= status_number(code) <= messages.len(),
        messages[status_number(code) - 1] == messages[(code & 0xfff) - 1],
        status_number(code) == status_number(other),
{
    law_status_number_low_twelve_bits(code);
    law_status_number_low_twelve_bits(other);
}

/// The upper-case hexadecimal digits, in order of value.
pub open spec fn upper_hex_alphabet() -> Seq<char> {
    "0123456789ABCDEF"@
}

/// The digit for each value below sixteen is the character at that position of
/// `0123456789ABCDEF`, and reading it back gives the value.
pub proof fn law_hex_digit_upper_case(d: int)
    requires
        0 <= d < 16,
    ensures
        hex_digit(d) == upper_hex_alphabet()[d],
        hex_digit_value(upper_hex_alphabet()[d]) == d,
{
    reveal_strlit("0123456789ABCDEF");
    assert(upper_hex_alphabet().len() == 16);
    assert(upper_hex_alphabet()[d] == hex_digit(d));
}

/// The hexadecimal digits of `n` are positional upper-case digits: the character `i` places
/// from the end is the `i`-th base-sixteen digit of `n`, taken from `0123456789ABCDEF`; there
/// are just enough of them (`16^(len-1) <= n < 16^len`, one `0` for zero).
pub proof fn law_hex_digits_positional(n: nat)
    ensures
        hex_digits(n).len() >= 1,
        n < pow16(hex_digits(n).len()),
        n > 0 ==> pow16((hex_digits(n).len() - 1) as nat) <= n,
        n == 0 ==> hex_digits(n).len() == 1,
        forall|i: int|
            0 <= i < hex_digits(n).len() ==> hex_digits(n)[i] == upper_hex_alphabet()[((n / pow16(
                (hex_digits(n).len() - 1 - i) as nat,
            )) % 16) as int],
    decreases n,
{
    let s = hex_digits(n);
    if n < 16 {
        law_hex_digit_upper_case(n as int);
        assert(pow16(0) == 1);
        assert(pow16(1) == 16 * pow16(0));
        assert forall|i: int| 0 <= i < s.len() implies s[i] == upper_hex_alphabet()[((n / pow16(
            (s.len() - 1 - i) as nat,
        )) % 16) as int] by {
            assert(i == 0);
            assert(n / pow16(0) == n);
        }
    } else {
        let m = n / 16;
        law_hex_digits_positional(m);
        let t = hex_digits(m);
        let l = t.len();
        assert(s == t + seq![hex_digit((n % 16) as int)]);
        law_hex_digit_upper_case((n % 16) as int);
        assert(pow16((l + 1) as nat) == 16 * pow16(l));
        assert(pow16(l) == 16 * pow16((l - 1) as nat));
        assert(16 * m <= n < 16 * m + 16);
        assert(n < pow16((l + 1) as nat)) by (nonlinear_arith)
            requires
                m < pow16(l),
                n < 16 * m + 16,
                pow16((l + 1) as nat) == 16 * pow16(l),
        ;
        assert(pow16(l) <= n) by (nonlinear_arith)
            requires
                m > 0,
                pow16((l - 1) as nat) <= m,
                16 * m <= n,
                pow16(l) == 16 * pow16((l - 1) as nat),
        ;
        assert forall|i: int| 0 <= i < s.len() implies s[i] == upper_hex_alphabet()[((n / pow16(
            (s.len() - 1 - i) as nat,
        )) % 16) as int] by {
            if i < l {
                let p = (l - 1 - i) as nat;
                assert(s[i] == t[i]);
                lemma_pow16_positive(p);
                vstd::arithmetic::div_mod::lemma_div_denominator(n as int, 16, pow16(p) as int);
                assert(pow16((p + 1) as nat) == 16 * pow16(p));
                assert((s.len() - 1 - i) as nat == (p + 1) as nat);
                assert(n / pow16((p + 1) as nat) == m / pow16(p));
            } else {
                assert(i == l);
                assert(pow16(0) == 1);
                assert(n / pow16(0) == n);
            }
        }
    }
}

/// Sixteen to any power is positive.
pub proof fn lemma_pow16_positive(k: nat)
    ensures
        pow16(k) > 0,
    decreases k,
{
    if k > 0 {
        lemma_pow16_positive((k - 1) as nat);
    }
}

/// The ten-character field of a failure message is what `{:#10X}` prints: spaces, `0x`, and
/// then the positional upper-case hexadecimal digits of the code, with no leading zero.
pub proof fn law_hex_field_upper_case(code: u32)
    ensures
        ({
            let f = hex_field(code);
            let len = hex_digits(code as nat).len();
            let k = 10 - 2 - len;
            &&& f.len() == 10
            &&& 1 <= len <= 8
            &&& forall|i: int| 0 <= i < k ==> f[i] == ' '
            &&& f[k] == '0'
            &&& f[k + 1] == 'x'
            &&& code < pow16(len)
            &&& code > 0 ==> pow16((len - 1) as nat) <= code
            &&& forall|j: int|
                k + 2 <= j < 10 ==> #[trigger] f[j] == upper_hex_alphabet()[(((code as nat) / pow16(
                    (9 - j) as nat,
                )) % 16) as int]
        }),
{
    law_hex_field_names_code(code);
    law_hex_digits_positional(code as nat);
    let d = hex_digits(code as nat);
    let f = hex_field(code);
    let k = 8 - d.len();
    assert(f.subrange(k + 2, 10) =~= d);
    assert forall|j: int| k + 2 <= j < 10 implies #[trigger] f[j] == upper_hex_alphabet()[(((
        code as nat) / pow16((9 - j) as nat)) % 16) as int] by {
        let i = j - k - 2;
        assert(f.subrange(k + 2, 10)[i] == f[j]);
        assert(d[i] == upper_hex_alphabet()[(((code as nat) / pow16((d.len() - 1 - i) as nat))
            % 16) as int]);
    }
}

/// A failure message reads `error `, the table entry for the status number, ` (`, the ten
/// characters of the code in hexadecimal, `) in `, and the name of the call, in that order
/// and with nothing else.
pub proof fn law_failure_message_layout(messages: Seq<&str>, code: u32, func: Seq<char>)
    requires
        1 <= (code & 0xfff) <= messages.len(),
    ensures
        ({
            let m = failure_message(messages, code, func);
            let entry = messages[(code & 0xfff) - 1]@;
            let e: int = 6 + entry.len() as int;
            &&& m.len() == e + 17 + func.len()
            &&& m.subrange(0, 6) == seq!['e', 'r', 'r', 'o', 'r', ' ']
            &&& m.subrange(6, e) == entry
            &&& m.subrange(e, e + 2) == seq![' ', '(']
            &&& m.subrange(e + 2, e + 12) == hex_field(code)
            &&& m.subrange(e + 12, e + 17) == seq![')', ' ', 'i', 'n', ' ']
            &&& m.subrange(e + 17, m.len() as int) == func
        }),
{
    law_status_number_low_twelve_bits(code);
    law_hex_field_names_code(code);
    reveal_strlit("error ");
    reveal_strlit(" (");
    reveal_strlit(") in ");
    let m = failure_message(messages, code, func);
    let entry = messages[(code & 0xfff) - 1]@;
    let e: int = 6 + entry.len() as int;
    assert(m.subrange(0, 6) =~= seq!['e', 'r', 'r', 'o', 'r', ' ']);
    assert(m.subrange(6, e) =~= entry);
    assert(m.subrange(e, e + 2) =~= seq![' ', '(']);
    assert(m.subrange(e + 2, e + 12) =~= hex_field(code));
    assert(m.subrange(e + 12, e + 17) =~= seq![')', ' ', 'i', 'n', ' ']);
    assert(m.subrange(e + 17, m.len() as int) =~= func);
}

/// Turns the status that a DCE RPC call named `func` reported into a result: success for
/// `ERROR_STATUS_OK`, else an error whose text names the status, the code and the call.
pub fn check_error(messages: &[&str], code: u32, func: &str) -> (r: Result<(), RpcError>)
    requires
        code != ERROR_STATUS_OK ==> 1 <= status_number(code) <= messages@.len(),
    ensures
        r is Ok <==> code == ERROR_STATUS_OK,
        r matches Err(e) ==> e matches RpcError::DceError(m) && m@ == failure_message(
            messages@,
            code,
            func@,
        ),
{
    if code != ERROR_STATUS_OK {
        let mut m = "error ".to_owned();
        let text = error_code(messages, code);
        m.append(text.as_str());
        m.append(" (");
        let field = format_hex_field(code);
        m.append(field.as_str());
        m.append(") in ");
        m.append(func);
        Err(RpcError::DceError(m))
    } else {
        Ok(())
    }
}

} // verus!
