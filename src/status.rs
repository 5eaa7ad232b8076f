use vstd::prelude::*;

verus! {

/// The byte that closes the port number in the daemon's status file.
pub const PORT_DELIMITER: u8 = 0x29;

/// `b` is an ASCII decimal digit.
pub open spec fn is_digit(b: u8) -> bool {
    0x30 <= b && b <= 0x39
}

/// The value of a sequence of ASCII decimal digits.
pub open spec fn digits_value(s: Seq<u8>) -> nat
    decreases s.len(),
{
    if s.len() == 0 {
        0
    } else {
        digits_value(s.drop_last()) * 10 + (s.last() - 0x30) as nat
    }
}

/// The index of the first byte at or after `i` that is not a digit, or the
/// length of `text` when there is none.
pub open spec fn digit_run_end(text: Seq<u8>, i: int) -> int
    decreases text.len() - i,
{
    if 0 <= i < text.len() && is_digit(text[i]) {
        digit_run_end(text, i + 1)
    } else {
        i
    }
}

/// The port that the status file announces: the digits that start at
/// `offset` and run up to the closing delimiter, when there is at least one,
/// the delimiter follows them and their value fits a port.
pub open spec fn status_port_spec(text: Seq<u8>, offset: int) -> Option<u16> {
    let end = digit_run_end(text, offset);
    if 0 <= offset && offset < end && end < text.len() && text[end] == PORT_DELIMITER
        && digits_value(text.subrange(offset, end)) <= u16::MAX {
        Some(digits_value(text.subrange(offset, end)) as u16)
    } else {
        None
    }
}

proof fn lemma_digits_value_grows(s: Seq<u8>, t: Seq<u8>)
    requires
        forall|i: int| 0 <= i < t.len() ==> is_digit(#[trigger] t[i]),
    ensures
        digits_value(s + t) >= digits_value(s),
    decreases t.len(),
{
    if t.len() > 0 {
        let u = t.drop_last();
        assert((s + t).drop_last() =~= s + u);
        lemma_digits_value_grows(s, u);
    }
}

proof fn lemma_run_end_bounds(text: Seq<u8>, i: int)
    requires
        0 <= i <= text.len(),
    ensures
        i <= digit_run_end(text, i) <= text.len(),
        forall|j: int| i <= j < digit_run_end(text, i) ==> is_digit(#[trigger] text[j]),
    decreases text.len() - i,
{
    if i < text.len() && is_digit(text[i]) {
        lemma_run_end_bounds(text, i + 1);
    }
}

/// Reads the RPC port from the daemon's status file `text`: the decimal
/// digits that start at byte `offset` and end at the closing parenthesis.
pub fn status_port(text: &[u8], offset: usize) -> (r: Option<u16>)
    ensures
        r == status_port_spec(text@, offset as int),
{
    if offset >= text.len() {
        return None;
    }
    let ghost s = text@;
    let mut i: usize = offset;
    let mut value: u32 = 0;
    while i < text.len() && 0x30 <= text[i] && text[i] <= 0x39
        invariant
            offset <= i <= s.len(),
            s == text@,
            value == digits_value(s.subrange(offset as int, i as int)),
            value <= u16::MAX,
            forall|j: int| offset <= j < i ==> is_digit(#[trigger] s[j]),
            digit_run_end(s, offset as int) == digit_run_end(s, i as int),
        decreases s.len() - i,
    {
        let next = value * 10 + (text[i] - 0x30) as u32;
        assert(s.subrange(offset as int, i + 1).drop_last() =~= s.subrange(offset as int, i as int));
        if next > u16::MAX as u32 {
            proof {
                lemma_run_end_bounds(s, i + 1);
                let end = digit_run_end(s, offset as int);
                let head = s.subrange(offset as int, i + 1);
                let tail = s.subrange(i + 1, end);
                assert forall|j: int| 0 <= j < tail.len() implies is_digit(#[trigger] tail[j]) by {
                    assert(tail[j] == s[i + 1 + j]);
                }
                assert(head + tail =~= s.subrange(offset as int, end));
                lemma_digits_value_grows(head, tail);
            }
            return None;
        }
        value = next;
        i += 1;
    }
    proof {
        lemma_run_end_bounds(s, i as int);
    }
    if i > offset && i < text.len() && text[i] == PORT_DELIMITER {
        Some(value as u16)
    } else {
        None
    }
}

} // verus!
