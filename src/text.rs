//! Fixed textual forms of dates, times and identifiers.

use vstd::prelude::*;

verus! {

/// Relies on `String::push`: appends one character at the end.
#[verifier::external_body]
fn push_char(s: &mut String, c: char)
    ensures
        final(s)@ == old(s)@.push(c),
{
    s.push(c);
}

/// Whether two strings hold the same characters.
pub(crate) fn same_text(a: &str, b: &str) -> (r: bool)
    ensures
        r == (a@ == b@),
{
    let n = a.unicode_len();
    if n != b.unicode_len() {
        return false;
    }
    let mut i: usize = 0;
    while i < n
        invariant
            n == a@.len(),
            n == b@.len(),
            i <= n,
            forall|k: int| 0 <= k < i ==> a@[k] == b@[k],
        decreases n - i,
    {
        if a.get_char(i) != b.get_char(i) {
            return false;
        }
        i = i + 1;
    }
    proof {
        assert(a@ =~= b@);
    }
    true
}

/// Whether `s` begins with `p`.
pub open spec fn has_prefix(s: Seq<char>, p: Seq<char>) -> bool {
    p.len() <= s.len() && s.subrange(0, p.len() as int) == p
}

/// Whether `s` begins with the characters of `p`.
pub fn starts_with(s: &str, p: &str) -> (r: bool)
    ensures
        r == has_prefix(s@, p@),
{
    let n = p.unicode_len();
    if n > s.unicode_len() {
        return false;
    }
    let mut i: usize = 0;
    while i < n
        invariant
            n == p@.len(),
            n <= s@.len(),
            i <= n,
            forall|k: int| 0 <= k < i ==> s@[k] == p@[k],
        decreases n - i,
    {
        if s.get_char(i) != p.get_char(i) {
            proof {
                assert(s@.subrange(0, n as int)[i as int] != p@[i as int]);
            }
            return false;
        }
        i = i + 1;
    }
    proof {
        assert(s@.subrange(0, n as int) =~= p@);
    }
    true
}

/// The lowercase hexadecimal digit for `d` (its decimal digit when `d < 10`).
pub open spec fn digit_of(d: int) -> char {
    if d == 0 { '0' }
    else if d == 1 { '1' }
    else if d == 2 { '2' }
    else if d == 3 { '3' }
    else if d == 4 { '4' }
    else if d == 5 { '5' }
    else if d == 6 { '6' }
    else if d == 7 { '7' }
    else if d == 8 { '8' }
    else if d == 9 { '9' }
    else if d == 10 { 'a' }
    else if d == 11 { 'b' }
    else if d == 12 { 'c' }
    else if d == 13 { 'd' }
    else if d == 14 { 'e' }
    else { 'f' }
}

fn digit_char(d: u32) -> (c: char)
    requires
        d < 16,
    ensures
        c == digit_of(d as int),
{
    if d == 0 { '0' }
    else if d == 1 { '1' }
    else if d == 2 { '2' }
    else if d == 3 { '3' }
    else if d == 4 { '4' }
    else if d == 5 { '5' }
    else if d == 6 { '6' }
    else if d == 7 { '7' }
    else if d == 8 { '8' }
    else if d == 9 { '9' }
    else if d == 10 { 'a' }
    else if d == 11 { 'b' }
    else if d == 12 { 'c' }
    else if d == 13 { 'd' }
    else if d == 14 { 'e' }
    else { 'f' }
}

/// `n` in two decimal digits, zero-padded.
pub open spec fn pad2(n: int) -> Seq<char> {
    seq![digit_of(n / 10), digit_of(n % 10)]
}

/// `n` in four decimal digits, zero-padded.
pub open spec fn pad4(n: int) -> Seq<char> {
    seq![digit_of(n / 1000), digit_of((n / 100) % 10), digit_of((n / 10) % 10), digit_of(n % 10)]
}

/// `YYYY-MM-DD`.
pub open spec fn date_text(year: int, month: int, day: int) -> Seq<char> {
    pad4(year) + seq!['-'] + pad2(month) + seq!['-'] + pad2(day)
}

/// `HH:MM:SS`.
pub open spec fn time_text(hour: int, minute: int, second: int) -> Seq<char> {
    pad2(hour) + seq![':'] + pad2(minute) + seq![':'] + pad2(second)
}

/// `YYYY-MM-DD HH:MM:SS`.
pub open spec fn timestamp_text(
    year: int,
    month: int,
    day: int,
    hour: int,
    minute: int,
    second: int,
) -> Seq<char> {
    date_text(year, month, day) + seq![' '] + time_text(hour, minute, second)
}

/// Two lowercase hexadecimal digits of a byte.
pub open spec fn byte_hex(x: u8) -> Seq<char> {
    seq![digit_of(x as int / 16), digit_of(x as int % 16)]
}

/// The bytes `b[lo..hi]` in hexadecimal, two digits each.
pub open spec fn hex_run(b: Seq<u8>, lo: int, hi: int) -> Seq<char>
    decreases hi - lo,
{
    if hi <= lo {
        Seq::empty()
    } else {
        hex_run(b, lo, hi - 1) + byte_hex(b[hi - 1])
    }
}

/// The hyphenated form of a 16-byte identifier: 8-4-4-4-12 hexadecimal
/// digits.
pub open spec fn uuid_text(b: Seq<u8>) -> Seq<char> {
    hex_run(b, 0, 4) + seq!['-'] + hex_run(b, 4, 6) + seq!['-'] + hex_run(b, 6, 8) + seq!['-']
        + hex_run(b, 8, 10) + seq!['-'] + hex_run(b, 10, 16)
}

fn push_pad2(s: &mut String, n: u32)
    requires
        n < 100,
    ensures
        final(s)@ == old(s)@ + pad2(n as int),
{
    push_char(s, digit_char(n / 10));
    push_char(s, digit_char(n % 10));
}

fn push_pad4(s: &mut String, n: u32)
    requires
        n < 10000,
    ensures
        final(s)@ == old(s)@ + pad4(n as int),
{
    push_char(s, digit_char(n / 1000));
    push_char(s, digit_char((n / 100) % 10));
    push_char(s, digit_char((n / 10) % 10));
    push_char(s, digit_char(n % 10));
}

fn push_date(s: &mut String, year: u32, month: u32, day: u32)
    requires
        year < 10000,
        month < 100,
        day < 100,
    ensures
        final(s)@ == old(s)@ + date_text(year as int, month as int, day as int),
{
    push_pad4(s, year);
    push_char(s, '-');
    push_pad2(s, month);
    push_char(s, '-');
    push_pad2(s, day);
}

fn push_time(s: &mut String, hour: u32, minute: u32, second: u32)
    requires
        hour < 100,
        minute < 100,
        second < 100,
    ensures
        final(s)@ == old(s)@ + time_text(hour as int, minute as int, second as int),
{
    push_pad2(s, hour);
    push_char(s, ':');
    push_pad2(s, minute);
    push_char(s, ':');
    push_pad2(s, second);
}

/// `YYYY-MM-DD` for a year below 10000 and a month and a day below 100.
pub fn format_date(year: u32, month: u32, day: u32) -> (r: String)
    requires
        year < 10000,
        month < 100,
        day < 100,
    ensures
        r@ == date_text(year as int, month as int, day as int),
{
    let mut s = String::new();
    push_date(&mut s, year, month, day);
    s
}

/// `HH:MM:SS` for fields below 100.
pub fn format_time(hour: u32, minute: u32, second: u32) -> (r: String)
    requires
        hour < 100,
        minute < 100,
        second < 100,
    ensures
        r@ == time_text(hour as int, minute as int, second as int),
{
    let mut s = String::new();
    push_time(&mut s, hour, minute, second);
    s
}

/// `YYYY-MM-DD HH:MM:SS` for a year below 10000 and other fields below 100.
pub fn format_timestamp(year: u32, month: u32, day: u32, hour: u32, minute: u32, second: u32) -> (r: String)
    requires
        year < 10000,
        month < 100,
        day < 100,
        hour < 100,
        minute < 100,
        second < 100,
    ensures
        r@ == timestamp_text(year as int, month as int, day as int, hour as int, minute as int, second as int),
{
    let mut s = String::new();
    push_date(&mut s, year, month, day);
    push_char(&mut s, ' ');
    push_time(&mut s, hour, minute, second);
    s
}

fn push_hex_run(s: &mut String, b: &[u8; 16], lo: usize, hi: usize)
    requires
        lo <= hi <= 16,
    ensures
        final(s)@ == old(s)@ + hex_run(b@, lo as int, hi as int),
{
    let mut i: usize = lo;
    while i < hi
        invariant
            lo <= i <= hi <= 16,
            s@ == old(s)@ + hex_run(b@, lo as int, i as int),
        decreases hi - i,
    {
        let x: u8 = b[i];
        push_char(s, digit_char((x / 16) as u32));
        push_char(s, digit_char((x % 16) as u32));
        proof {
            assert(hex_run(b@, lo as int, i + 1) == hex_run(b@, lo as int, i as int) + byte_hex(b@[i as int]));
        }
        i = i + 1;
    }
}

/// The hyphenated lowercase form of a 16-byte identifier.
pub fn format_uuid(b: &[u8; 16]) -> (r: String)
    ensures
        r@ == uuid_text(b@),
{
    let mut s = String::new();
    push_hex_run(&mut s, b, 0, 4);
    push_char(&mut s, '-');
    push_hex_run(&mut s, b, 4, 6);
    push_char(&mut s, '-');
    push_hex_run(&mut s, b, 6, 8);
    push_char(&mut s, '-');
    push_hex_run(&mut s, b, 8, 10);
    push_char(&mut s, '-');
    push_hex_run(&mut s, b, 10, 16);
    s
}

} // verus!
