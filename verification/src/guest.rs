//! Host functions that the kernel offers to the WebAssembly guest under the
//! module name `host`: `wasmos_print`, which logs a string from the guest's
//! memory, and `hello`, which logs a number the guest passes.
use vstd::prelude::*;
use vstd::string::StringExecFns;
use vstd::string::StringSliceAdditionalSpecFns;
use vstd::utf8::*;

verus! {

/// The import module under which the host functions are offered.
pub const HOST_MODULE: &'static str = "host";

/// Import name of the host function that logs a string of guest memory.
pub const PRINT_FUNCTION: &'static str = "wasmos_print";

/// Import name of the host function that logs a number.
pub const HELLO_FUNCTION: &'static str = "hello";

/// The guest export holding the linear memory that `wasmos_print` reads.
pub const MEMORY_EXPORT: &'static str = "memory";

/// The guest export the kernel calls once the guest is instantiated.
pub const ENTRY_EXPORT: &'static str = "main";

/// The bytes that `wasmos_print(offset, length)` reads from guest memory:
/// `memory[offset..offset + length]` when that range lies inside the memory;
/// otherwise the read is refused and the buffer keeps its `length` zero bytes.
pub open spec fn read_window(memory: Seq<u8>, offset: int, length: int) -> Seq<u8> {
    if offset + length <= memory.len() {
        memory.subrange(offset, offset + length)
    } else {
        Seq::new(length as nat, |_i: int| 0u8)
    }
}

/// Checks that `bytes` are UTF-8 and views them as a string slice.
///
/// Calls `core::str::from_utf8`, which returns `Ok` exactly when the bytes
/// are valid UTF-8, with a slice that holds those same bytes.
#[verifier::external_body]
fn str_from_utf8(bytes: &[u8]) -> (r: Option<&str>)
    ensures
        r is Some <==> valid_utf8(bytes@),
        r matches Some(s) ==> s.spec_bytes() == bytes@,
{
    match core::str::from_utf8(bytes) {
        Ok(s) => Some(s),
        Err(_) => None,
    }
}

/// The text that `wasmos_print(offset, length)` logs: the window of guest
/// memory it reads, decoded as UTF-8; `None` when those bytes are not UTF-8
/// (the host then panics).
pub fn guest_print_text(memory: &[u8], offset: u32, length: u32) -> (r: Option<String>)
    ensures
        r is Some <==> valid_utf8(read_window(memory@, offset as int, length as int)),
        r matches Some(s) ==> s@ == decode_utf8(read_window(memory@, offset as int, length as int)),
        offset + length <= memory@.len() ==> (r is Some <==> valid_utf8(
            memory@.subrange(offset as int, offset + length),
        )),
        offset + length <= memory@.len() ==> (r matches Some(s) ==> s@ == decode_utf8(
            memory@.subrange(offset as int, offset + length),
        )),
        offset + length > memory@.len() ==> (r matches Some(s) && s@ == Seq::new(
            length as nat,
            |_i: int| '\0',
        )),
{
    let ghost window = read_window(memory@, offset as int, length as int);
    let memory_len: usize = memory.len();
    let in_bounds: bool = (offset as u64) + (length as u64) <= memory_len as u64;
    let start: usize = offset as usize;
    let len: usize = length as usize;
    let mut buffer: Vec<u8> = Vec::new();
    let mut i: usize = 0;
    while i < len
        invariant
            i <= len,
            len == length,
            start == offset,
            memory_len == memory@.len(),
            in_bounds == (offset + length <= memory@.len()),
            window == read_window(memory@, offset as int, length as int),
            buffer@.len() == i,
            forall|k: int| 0 <= k < i ==> buffer@[k] == window[k],
        decreases len - i,
    {
        if in_bounds {
            buffer.push(memory[start + i]);
        } else {
            buffer.push(0u8);
        }
        i = i + 1;
    }
    proof {
        assert(buffer@ =~= window);
        lemma_in_bounds_read_is_slice(memory@, offset as int, length as int);
        if offset + length > memory@.len() {
            lemma_out_of_bounds_print_is_nuls(memory@, offset as int, length as int);
        }
    }
    match str_from_utf8(buffer.as_slice()) {
        Some(s) => {
            proof {
                broadcast use encode_utf8_decode_utf8;
                assert(s@ == decode_utf8(encode_utf8(s@)));
            }
            Some(s.to_owned())
        },
        None => None,
    }
}

/// The characters that bytes below 128 stand for, one for one.
pub open spec fn ascii_chars(bytes: Seq<u8>) -> Seq<char> {
    Seq::new(bytes.len(), |i: int| bytes[i] as char)
}

/// Bytes below 128 are valid UTF-8 and decode to one character each.
pub proof fn lemma_ascii_bytes_decode(bytes: Seq<u8>)
    requires
        forall|i: int| 0 <= i < bytes.len() ==> #[trigger] bytes[i] < 128,
    ensures
        valid_utf8(bytes),
        decode_utf8(bytes) == ascii_chars(bytes),
{
    let chars = ascii_chars(bytes);
    assert forall|i: int| 0 <= i < chars.len() implies '\0' <= #[trigger] chars[i] <= '\u{7f}' by {
        assert(bytes[i] < 128);
    }
    assert(is_ascii_chars(chars));
    is_ascii_chars_encode_utf8(chars);
    assert forall|i: int| 0 <= i < bytes.len() implies #[trigger] encode_utf8(chars)[i] == bytes[i] by {
        assert(chars[i] as u8 == encode_utf8(chars)[i]);
        let b = bytes[i];
        assert((b as char) as u8 == b);
    }
    assert(encode_utf8(chars) =~= bytes);
    encode_utf8_valid_utf8(chars);
    encode_utf8_decode_utf8(chars);
}

/// A print request inside guest memory reads exactly the bytes
/// `memory[offset..offset + length]`, whatever their values.
pub proof fn lemma_in_bounds_read_is_slice(memory: Seq<u8>, offset: int, length: int)
    ensures
        0 <= offset && 0 <= length && offset + length <= memory.len() ==> read_window(
            memory,
            offset,
            length,
        ) == memory.subrange(offset, offset + length),
        0 <= offset && 0 <= length && offset + length <= memory.len() ==> read_window(
            memory,
            offset,
            length,
        ).len() == length && forall|k: int|
            0 <= k < length ==> #[trigger] read_window(memory, offset, length)[k] == memory[offset
                + k],
{
}

/// A print request that reaches past the end of guest memory logs `length`
/// NUL characters: the refused read leaves the zeroed buffer as it was.
pub proof fn lemma_out_of_bounds_print_is_nuls(memory: Seq<u8>, offset: int, length: int)
    requires
        0 <= length,
        offset + length > memory.len(),
    ensures
        valid_utf8(read_window(memory, offset, length)),
        decode_utf8(read_window(memory, offset, length)) == Seq::new(
            length as nat,
            |_i: int| '\0',
        ),
{
    let w = read_window(memory, offset, length);
    lemma_ascii_bytes_decode(w);
    assert(ascii_chars(w) =~= Seq::new(length as nat, |_i: int| '\0'));
}

/// A print request inside guest memory whose bytes are ASCII logs exactly
/// those characters.
pub proof fn lemma_in_bounds_ascii_print(memory: Seq<u8>, offset: int, length: int)
    requires
        0 <= offset,
        0 <= length,
        offset + length <= memory.len(),
        forall|i: int| offset <= i < offset + length ==> #[trigger] memory[i] < 128,
    ensures
        valid_utf8(read_window(memory, offset, length)),
        decode_utf8(read_window(memory, offset, length)) == ascii_chars(
            memory.subrange(offset, offset + length),
        ),
{
    let w = read_window(memory, offset, length);
    assert forall|i: int| 0 <= i < w.len() implies #[trigger] w[i] < 128 by {
        assert(w[i] == memory[offset + i]);
    }
    lemma_ascii_bytes_decode(w);
}

/// The character of a decimal digit.
pub open spec fn digit_char(d: nat) -> char {
    (48 + d) as char
}

/// The decimal digits of `n`, most significant first, without leading zeros.
pub open spec fn decimal_digits(n: nat) -> Seq<char>
    decreases n,
{
    if n < 10 {
        seq![digit_char(n)]
    } else {
        decimal_digits(n / 10).push(digit_char(n % 10))
    }
}

/// How an integer is written in decimal: a minus sign for a negative value,
/// then its digits.
pub open spec fn decimal_text(v: int) -> Seq<char> {
    if v < 0 {
        seq!['-'] + decimal_digits((-v) as nat)
    } else {
        decimal_digits(v as nat)
    }
}

/// Whether `c` is one of the characters `0` to `9`.
pub open spec fn is_decimal_digit(c: char) -> bool {
    '0' <= c <= '9'
}

/// The number that a string of decimal digits stands for, read most
/// significant digit first.
pub open spec fn digits_value(t: Seq<char>) -> int
    decreases t.len(),
{
    if t.len() == 0 {
        0
    } else {
        digits_value(t.drop_last()) * 10 + (t.last() as int - 48)
    }
}

/// The integer a decimal text stands for: an optional minus sign, then
/// digits.
pub open spec fn text_value(t: Seq<char>) -> int {
    if t.len() > 0 && t[0] == '-' {
        -digits_value(t.drop_first())
    } else {
        digits_value(t)
    }
}

/// The digits of `n` are decimal digits, at least one, with no leading zero
/// unless `n` is zero, and they read back as `n`.
pub proof fn lemma_decimal_digits_read_back(n: nat)
    ensures
        decimal_digits(n).len() >= 1,
        forall|k: int|
            0 <= k < decimal_digits(n).len() ==> is_decimal_digit(#[trigger] decimal_digits(n)[k]),
        digits_value(decimal_digits(n)) == n,
        n > 0 ==> decimal_digits(n)[0] != '0',
        n == 0 ==> decimal_digits(n) == seq!['0'],
    decreases n,
{
    if n < 10 {
        let t = decimal_digits(n);
        assert(t.drop_last() =~= Seq::<char>::empty());
        assert(digit_char(n) as int == 48 + n);
        assert(digits_value(Seq::<char>::empty()) == 0);
        assert(digits_value(t) == digits_value(t.drop_last()) * 10 + (t.last() as int - 48));
    } else {
        lemma_decimal_digits_read_back(n / 10);
        let t = decimal_digits(n);
        let c = digit_char(n % 10);
        assert(t.drop_last() =~= decimal_digits(n / 10));
        assert(c as int == 48 + n % 10);
        assert(t.last() == c);
        assert(digits_value(t) == digits_value(t.drop_last()) * 10 + (t.last() as int - 48));
        assert(digits_value(t) == (n / 10) * 10 + n % 10);
        assert(t[0] == decimal_digits(n / 10)[0]);
    }
}

/// Writing an integer in decimal and reading the text back gives the
/// integer: a minus sign exactly for negative values, then its digits with
/// no leading zero.
pub proof fn lemma_decimal_text_reads_back(v: int)
    ensures
        text_value(decimal_text(v)) == v,
        v < 0 <==> decimal_text(v)[0] == '-',
        forall|k: int|
            (if v < 0 {
                1int
            } else {
                0int
            }) <= k < decimal_text(v).len() ==> is_decimal_digit(#[trigger] decimal_text(v)[k]),
        v != 0 ==> decimal_text(v)[if v < 0 {
            1int
        } else {
            0int
        }] != '0',
{
    if v < 0 {
        lemma_decimal_digits_read_back((-v) as nat);
        let t = decimal_text(v);
        assert(t.drop_first() =~= decimal_digits((-v) as nat));
        assert forall|k: int| 1 <= k < t.len() implies is_decimal_digit(#[trigger] t[k]) by {
            assert(t[k] == decimal_digits((-v) as nat)[k - 1]);
        }
    } else {
        lemma_decimal_digits_read_back(v as nat);
    }
}

/// The one-character text of the decimal digit `d`.
fn digit_str(d: u32) -> (s: &'static str)
    requires
        d < 10,
    ensures
        s@ == seq![digit_char(d as nat)],
{
    proof {
        reveal_strlit("0");
        reveal_strlit("1");
        reveal_strlit("2");
        reveal_strlit("3");
        reveal_strlit("4");
        reveal_strlit("5");
        reveal_strlit("6");
        reveal_strlit("7");
        reveal_strlit("8");
        reveal_strlit("9");
    }
    if d == 0 {
        "0"
    } else if d == 1 {
        "1"
    } else if d == 2 {
        "2"
    } else if d == 3 {
        "3"
    } else if d == 4 {
        "4"
    } else if d == 5 {
        "5"
    } else if d == 6 {
        "6"
    } else if d == 7 {
        "7"
    } else if d == 8 {
        "8"
    } else {
        "9"
    }
}

/// Appends the decimal digits of `n` to `s`.
pub fn append_digits(s: &mut String, n: u32)
    ensures
        final(s)@ == old(s)@ + decimal_digits(n as nat),
    decreases n,
{
    if n < 10 {
        s.append(digit_str(n));
    } else {
        append_digits(s, n / 10);
        s.append(digit_str(n % 10));
    }
}

/// Appends `v` written in decimal to `s`: a minus sign for a negative value,
/// then its digits.
pub fn append_decimal(s: &mut String, v: i32)
    ensures
        final(s)@ == old(s)@ + decimal_text(v as int),
        final(s)@.subrange(0, old(s)@.len() as int) == old(s)@,
        text_value(final(s)@.subrange(old(s)@.len() as int, final(s)@.len() as int)) == v,
{
    let ghost before = s@;
    if v < 0 {
        s.append("-");
        proof {
            reveal_strlit("-");
        }
        let magnitude: u32 = if v == i32::MIN {
            2147483648u32
        } else {
            (-v) as u32
        };
        append_digits(s, magnitude);
        proof {
            assert(old(s)@ + decimal_text(v as int) =~= old(s)@ + seq!['-'] + decimal_digits(
                magnitude as nat,
            ));
        }
    } else {
        append_digits(s, v as u32);
    }
    proof {
        assert(s@.subrange(before.len() as int, s@.len() as int) =~= decimal_text(v as int));
        assert(s@.subrange(0, before.len() as int) =~= before);
        lemma_decimal_text_reads_back(v as int);
    }
}

/// The line that the `hello(parameter)` host function logs.
pub fn hello_message(parameter: i32) -> (s: String)
    ensures
        s@ == "Got "@ + decimal_text(parameter as int) + " from WebAssembly"@,
        s@.subrange(0, 4) == "Got "@,
        s@.subrange(s@.len() - 17, s@.len() as int) == " from WebAssembly"@,
        text_value(s@.subrange(4, s@.len() - 17)) == parameter,
{
    let mut s = String::from_str("Got ");
    append_decimal(&mut s, parameter);
    s.append(" from WebAssembly");
    proof {
        reveal_strlit("Got ");
        reveal_strlit(" from WebAssembly");
        let head = "Got "@;
        let tail = " from WebAssembly"@;
        let mid = decimal_text(parameter as int);
        assert(s@.subrange(0, 4) =~= head);
        assert(s@.subrange(s@.len() - 17, s@.len() as int) =~= tail);
        assert(s@.subrange(4, s@.len() - 17) =~= mid);
        lemma_decimal_text_reads_back(parameter as int);
    }
    s
}

} // verus!
