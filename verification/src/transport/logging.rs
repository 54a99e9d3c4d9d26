//! The text encoding of raw protocol captures (`.obd2raw` files): byte
//! escaping, its inverse, and the pairing of recorded writes and reads.

use vstd::prelude::*;
use vstd::string::StrSliceExecFns;
use vstd::utf8::encode_utf8;
use crate::text::{
    byte_hex_upper, chars_range, decimal, decode_utf8_lossy, first_index_of, hex_upper, index_of,
    lemma_concat_lacks, lemma_decimal_no_newline, lemma_first_index, lemma_text_lines_append,
    lemma_text_lines_single, opt_string_view, push_byte_hex_upper, push_char, push_decimal,
    split_text_lines, str_chars, string_from_chars, strip_cr, text_lines, utf8_lossy,
};

verus! {

broadcast use vstd::string::group_string_axioms;

/// The escape of one byte: `\r`, `\n`, `\t` and `\\` for those four bytes,
/// printable ASCII (0x20-0x7E) as itself, anything else as `\xHH`.
pub open spec fn escape_byte(b: u8) -> Seq<char> {
    if b == 0x0D {
        seq!['\\', 'r']
    } else if b == 0x0A {
        seq!['\\', 'n']
    } else if b == 0x09 {
        seq!['\\', 't']
    } else if b == 0x5C {
        seq!['\\', '\\']
    } else if 0x20 <= b && b <= 0x7E {
        seq![b as char]
    } else {
        seq!['\\', 'x'] + byte_hex_upper(b)
    }
}

/// The escape of a byte sequence: the escapes of its bytes, in order.
pub open spec fn escape(data: Seq<u8>) -> Seq<char>
    decreases data.len(),
{
    if data.len() == 0 {
        Seq::empty()
    } else {
        escape(data.drop_last()) + escape_byte(data.last())
    }
}

/// Escape bytes for the log file.
pub fn escape_bytes(data: &[u8]) -> (s: String)
    ensures
        s@ == escape(data@),
{
    let mut out = String::new();
    let mut i: usize = 0;
    while i < data.len()
        invariant
            i <= data.len(),
            out@ == escape(data@.take(i as int)),
        decreases data.len() - i,
    {
        let b: u8 = data[i];
        if b == 0x0D {
            out.append("\\r");
        } else if b == 0x0A {
            out.append("\\n");
        } else if b == 0x09 {
            out.append("\\t");
        } else if b == 0x5C {
            out.append("\\\\");
        } else if 0x20 <= b && b <= 0x7E {
            push_char(&mut out, b as char);
        } else {
            out.append("\\x");
            push_byte_hex_upper(&mut out, b);
        }
        proof {
            reveal_strlit("\\r");
            reveal_strlit("\\n");
            reveal_strlit("\\t");
            reveal_strlit("\\\\");
            reveal_strlit("\\x");
            assert(data@.take(i + 1).drop_last() =~= data@.take(i as int));
            assert(out@ =~= escape(data@.take(i + 1)));
        }
        i = i + 1;
    }
    proof {
        assert(data@.take(data@.len() as int) =~= data@);
    }
    out
}

/// Whether `c` is a hexadecimal digit (either case).
pub open spec fn is_hex_digit(c: char) -> bool {
    ('0' <= c && c <= '9') || ('a' <= c && c <= 'f') || ('A' <= c && c <= 'F')
}

/// Value of a hexadecimal digit.
pub open spec fn hex_value(c: char) -> int {
    if '0' <= c && c <= '9' {
        (c as int) - ('0' as int)
    } else if 'a' <= c && c <= 'f' {
        (c as int) - ('a' as int) + 10
    } else {
        (c as int) - ('A' as int) + 10
    }
}

/// What `u8::from_str_radix` of the two characters `hi lo` in base 16 gives,
/// with 0 in place of an error: two hexadecimal digits, or a `+` sign and one
/// digit.
pub open spec fn hex_pair_value(hi: char, lo: char) -> u8 {
    if is_hex_digit(hi) && is_hex_digit(lo) {
        (16 * hex_value(hi) + hex_value(lo)) as u8
    } else if hi == '+' && is_hex_digit(lo) {
        hex_value(lo) as u8
    } else {
        0
    }
}

/// The UTF-8 bytes of one character.
pub open spec fn char_bytes(c: char) -> Seq<u8> {
    encode_utf8(seq![c])
}

/// How many characters one escape at the start of `cs` consumes, and the
/// bytes it stands for. A `\x` escape reads up to two more characters, taking
/// `0` for any that are missing; an unknown escape `\c` stands for a
/// backslash followed by `c`; a lone trailing backslash stands for itself.
pub open spec fn unescape_step(cs: Seq<char>) -> (int, Seq<u8>)
    recommends
        cs.len() > 0,
{
    if cs[0] != '\\' {
        (1, char_bytes(cs[0]))
    } else if cs.len() == 1 {
        (1, seq![0x5Cu8])
    } else if cs[1] == 'r' {
        (2, seq![0x0Du8])
    } else if cs[1] == 'n' {
        (2, seq![0x0Au8])
    } else if cs[1] == 't' {
        (2, seq![0x09u8])
    } else if cs[1] == '\\' {
        (2, seq![0x5Cu8])
    } else if cs[1] == 'x' {
        if cs.len() >= 4 {
            (4, seq![hex_pair_value(cs[2], cs[3])])
        } else if cs.len() == 3 {
            (3, seq![hex_pair_value(cs[2], '0')])
        } else {
            (2, seq![hex_pair_value('0', '0')])
        }
    } else {
        (2, seq![0x5Cu8] + char_bytes(cs[1]))
    }
}

/// The bytes an escaped text stands for.
pub open spec fn unescape(cs: Seq<char>) -> Seq<u8>
    decreases cs.len(),
{
    if cs.len() == 0 {
        Seq::empty()
    } else {
        let (k, b) = unescape_step(cs);
        if 1 <= k <= cs.len() {
            b + unescape(cs.subrange(k, cs.len() as int))
        } else {
            b
        }
    }
}

fn hex_digit_char(c: char) -> (r: Option<u8>)
    ensures
        r is Some <==> is_hex_digit(c),
        r matches Some(v) ==> v as int == hex_value(c) && v < 16,
{
    if c >= '0' && c <= '9' {
        Some(((c as u32) - ('0' as u32)) as u8)
    } else if c >= 'a' && c <= 'f' {
        Some(((c as u32) - ('a' as u32) + 10) as u8)
    } else if c >= 'A' && c <= 'F' {
        Some(((c as u32) - ('A' as u32) + 10) as u8)
    } else {
        None
    }
}

fn hex_pair(hi: char, lo: char) -> (r: u8)
    ensures
        r == hex_pair_value(hi, lo),
{
    match (hex_digit_char(hi), hex_digit_char(lo)) {
        (Some(h), Some(l)) => 16 * h + l,
        (None, Some(l)) => {
            if hi == '+' {
                l
            } else {
                0
            }
        },
        _ => 0,
    }
}

fn push_char_bytes(out: &mut Vec<u8>, c: char)
    ensures
        final(out)@ == old(out)@ + char_bytes(c),
{
    let mut s = String::new();
    push_char(&mut s, c);
    let bytes = s.as_str().as_bytes_vec();
    proof {
        assert(s@ =~= seq![c]);
    }
    let mut i: usize = 0;
    let ghost start = out@;
    while i < bytes.len()
        invariant
            i <= bytes.len(),
            bytes@ == char_bytes(c),
            out@ == start + bytes@.take(i as int),
        decreases bytes.len() - i,
    {
        out.push(bytes[i]);
        proof {
            assert(bytes@.take(i + 1) =~= bytes@.take(i as int).push(bytes@[i as int]));
        }
        i = i + 1;
    }
    proof {
        assert(bytes@.take(bytes@.len() as int) =~= bytes@);
    }
}

/// Reverse the escape encoding back to raw bytes.
pub fn unescape_str(s: &str) -> (r: Vec<u8>)
    ensures
        r@ == unescape(s@),
{
    let cs = str_chars(s);
    let mut out: Vec<u8> = Vec::new();
    let mut i: usize = 0;
    proof {
        assert(cs@.subrange(0, cs@.len() as int) =~= cs@);
        assert(out@ + unescape(cs@) =~= unescape(cs@));
    }
    while i < cs.len()
        invariant
            cs@ == s@,
            i <= cs.len(),
            out@ + unescape(cs@.subrange(i as int, cs@.len() as int)) == unescape(cs@),
        decreases cs.len() - i,
    {
        let ghost rest = cs@.subrange(i as int, cs@.len() as int);
        let ghost step = unescape_step(rest);
        let c = cs[i];
        let mut k: usize = 1;
        if c != '\\' {
            push_char_bytes(&mut out, c);
        } else if i + 1 >= cs.len() {
            out.push(0x5C);
        } else {
            let d = cs[i + 1];
            k = 2;
            if d == 'r' {
                out.push(0x0D);
            } else if d == 'n' {
                out.push(0x0A);
            } else if d == 't' {
                out.push(0x09);
            } else if d == '\\' {
                out.push(0x5C);
            } else if d == 'x' {
                let left: usize = cs.len() - i;
                let hi = if left > 2 { cs[i + 2] } else { '0' };
                let lo = if left > 3 { cs[i + 3] } else { '0' };
                k = if left > 3 { 4 } else if left > 2 { 3 } else { 2 };
                out.push(hex_pair(hi, lo));
            } else {
                out.push(0x5C);
                push_char_bytes(&mut out, d);
            }
        }
        proof {
            assert(step.0 == k as int);
            assert(rest.subrange(k as int, rest.len() as int) =~= cs@.subrange(i + k, cs@.len() as int));
        }
        i = i + k;
    }
    proof {
        assert(cs@.subrange(i as int, cs@.len() as int) =~= Seq::<char>::empty());
        assert(out@ + Seq::<u8>::empty() =~= out@);
    }
    out
}


proof fn lemma_escape_concat(a: Seq<u8>, b: Seq<u8>)
    ensures
        escape(a + b) == escape(a) + escape(b),
    decreases b.len(),
{
    if b.len() == 0 {
        assert(a + b =~= a);
        assert(escape(a) + escape(b) =~= escape(a));
    } else {
        lemma_escape_concat(a, b.drop_last());
        assert((a + b).drop_last() =~= a + b.drop_last());
        assert((a + b).last() == b.last());
        assert(escape(a + b) =~= escape(a) + escape(b));
    }
}

proof fn lemma_hex_roundtrip(n: int)
    requires
        0 <= n < 16,
    ensures
        is_hex_digit(hex_upper(n)),
        hex_value(hex_upper(n)) == n,
{
}

proof fn lemma_unescape_escape_byte(b: u8, rest: Seq<char>)
    ensures
        unescape(escape_byte(b) + rest) == seq![b] + unescape(rest),
{
    let e = escape_byte(b);
    let cs = e + rest;
    assert(cs.subrange(e.len() as int, cs.len() as int) =~= rest);
    if b == 0x0D || b == 0x0A || b == 0x09 || b == 0x5C {
        assert(unescape_step(cs) == (2int, seq![b]));
    } else if 0x20 <= b && b <= 0x7E {
        let c = b as char;
        assert(vstd::utf8::is_ascii_chars(seq![c]));
        vstd::utf8::is_ascii_chars_encode_utf8(seq![c]);
        assert(char_bytes(c) =~= seq![b]);
        assert(unescape_step(cs) == (1int, seq![b]));
    } else {
        lemma_hex_roundtrip(b as int / 16);
        lemma_hex_roundtrip(b as int % 16);
        assert(cs[2] == hex_upper(b as int / 16));
        assert(cs[3] == hex_upper(b as int % 16));
        assert(hex_pair_value(cs[2], cs[3]) == b);
        assert(unescape_step(cs) == (4int, seq![b]));
    }
}

/// Unescaping the escape of any byte sequence gives the bytes back: a raw
/// capture replays exactly the bytes that were recorded.
pub proof fn lemma_unescape_escape(data: Seq<u8>)
    ensures
        unescape(escape(data)) == data,
    decreases data.len(),
{
    if data.len() == 0 {
    } else {
        let rest = data.drop_first();
        lemma_escape_concat(seq![data[0]], rest);
        assert(seq![data[0]] + rest =~= data);
        assert(seq![data[0]].drop_last() =~= Seq::<u8>::empty());
        reveal_with_fuel(escape, 2);
        assert(seq![data[0]].last() == data[0]);
        assert(escape(seq![data[0]]) =~= escape_byte(data[0]));
        lemma_unescape_escape_byte(data[0], escape(rest));
        lemma_unescape_escape(rest);
        assert(seq![data[0]] + rest =~= data);
    }
}

/// Metadata written to the capture file header.
#[derive(Debug, Clone)]
pub struct CaptureMetadata {
    pub transport_type: String,
    pub port_or_device: String,
    pub baud_rate: Option<u32>,
}

/// The header lines of a capture file started at time `started`: the format
/// line, the transport line (with the port and baud rate, or the device),
/// then the start time.
pub open spec fn header_text(meta: CaptureMetadata, started: Seq<char>) -> Seq<char> {
    "# obd2-raw v1\n"@ + match meta.baud_rate {
        Some(b) => "# transport="@ + meta.transport_type@ + " port="@ + meta.port_or_device@ + " baud="@
            + decimal(b as nat) + "\n"@,
        None => "# transport="@ + meta.transport_type@ + " device="@ + meta.port_or_device@ + "\n"@,
    } + "# started="@ + started + "\n"@
}

/// Format the file header for a capture started at `started`.
pub fn format_header_at(meta: &CaptureMetadata, started: &str) -> (h: String)
    ensures
        h@ == header_text(*meta, started@),
{
    let mut header = String::from_str("# obd2-raw v1\n");
    header.append("# transport=");
    header.append(meta.transport_type.as_str());
    match meta.baud_rate {
        Some(b) => {
            header.append(" port=");
            header.append(meta.port_or_device.as_str());
            header.append(" baud=");
            push_decimal(&mut header, b as u64);
            header.append("\n");
        },
        None => {
            header.append(" device=");
            header.append(meta.port_or_device.as_str());
            header.append("\n");
        },
    }
    header.append("# started=");
    header.append(started);
    header.append("\n");
    proof {
        assert(header@ =~= header_text(*meta, started@));
    }
    header
}

/// The current UTC time in RFC 3339 form with milliseconds
/// (`chrono::Utc::now().to_rfc3339_opts(SecondsFormat::Millis, true)`).
/// It depends on the clock, so nothing is claimed of it.
#[verifier::external_body]
fn capture_timestamp() -> String {
    chrono::Utc::now().to_rfc3339_opts(chrono::SecondsFormat::Millis, true)
}

/// Format the file header for a capture starting now.
pub fn format_header(meta: &CaptureMetadata) -> (h: String)
    ensures
        exists|t: Seq<char>| h@ == header_text(*meta, t),
{
    let now = capture_timestamp();
    format_header_at(meta, now.as_str())
}

/// The command text of a recorded write: its bytes without a final `\r`,
/// read as UTF-8.
pub open spec fn written_text(raw: Seq<u8>) -> Seq<char> {
    if raw.len() > 0 && raw.last() == 0x0D {
        utf8_lossy(raw.drop_last())
    } else {
        utf8_lossy(raw)
    }
}

/// The direction field and payload of a record line `<time> <dir> <payload>`
/// (`splitn(3, ' ')`), or `None` when the line has no second field.
pub open spec fn record_fields(line: Seq<char>) -> Option<(Seq<char>, Seq<char>)> {
    let i1 = first_index_of(line, ' ');
    if i1 < line.len() {
        let rest = line.subrange(i1 + 1, line.len() as int);
        let i2 = first_index_of(rest, ' ');
        let payload = if i2 < rest.len() { rest.subrange(i2 + 1, rest.len() as int) } else { Seq::empty() };
        Some((rest.subrange(0, i2), payload))
    } else {
        None
    }
}

/// One line of a capture applied to the pending write and the pairs found:
/// comments and empty lines are skipped, a `W` line becomes the pending
/// command, an `R` line pairs the pending command with its response, any
/// other line (such as `R.chunk`) is skipped.
#[verifier::opaque]
pub open spec fn capture_step(
    pending: Option<Seq<char>>,
    pairs: Seq<(Seq<char>, Seq<char>)>,
    line: Seq<char>,
) -> (Option<Seq<char>>, Seq<(Seq<char>, Seq<char>)>) {
    if line.len() == 0 || line[0] == '#' {
        (pending, pairs)
    } else {
        match record_fields(line) {
            None => (pending, pairs),
            Some((dir, payload)) => if dir == seq!['W'] {
                (Some(written_text(unescape(payload))), pairs)
            } else if dir == seq!['R'] {
                match pending {
                    Some(c) => (None, pairs.push((c, utf8_lossy(unescape(payload))))),
                    None => (None, pairs),
                }
            } else {
                (pending, pairs)
            },
        }
    }
}

/// The pending write and the (command, response) pairs after some lines.
pub open spec fn capture_state(lines: Seq<Seq<char>>) -> (Option<Seq<char>>, Seq<(Seq<char>, Seq<char>)>)
    decreases lines.len(),
{
    if lines.len() == 0 {
        (None, Seq::empty())
    } else {
        let before = capture_state(lines.drop_last());
        capture_step(before.0, before.1, lines.last())
    }
}

/// The (command, response) pairs a capture text records.
pub open spec fn capture_pairs(content: Seq<char>) -> Seq<(Seq<char>, Seq<char>)> {
    capture_state(text_lines(content)).1
}

/// Whether `v` holds the pairs `ps`, compared by their text.
pub open spec fn pairs_match(v: Seq<(String, String)>, ps: Seq<(Seq<char>, Seq<char>)>) -> bool {
    &&& v.len() == ps.len()
    &&& forall|k: int| 0 <= k < v.len() ==> (#[trigger] v[k]).0@ == ps[k].0 && v[k].1@ == ps[k].1
}

fn capture_line(
    line: &Vec<char>,
    pending: Option<String>,
    pairs: &mut Vec<(String, String)>,
    Ghost(ps): Ghost<Seq<(Seq<char>, Seq<char>)>>,
) -> (np: Option<String>)
    requires
        pairs_match(old(pairs)@, ps),
    ensures
        opt_string_view(np) == capture_step(opt_string_view(pending), ps, line@).0,
        pairs_match(final(pairs)@, capture_step(opt_string_view(pending), ps, line@).1),
{
    reveal(capture_step);
    if line.len() == 0 || line[0] == '#' {
        return pending;
    }
    let i1 = index_of(line, ' ');
    if i1 >= line.len() {
        return pending;
    }
    let rest = chars_range(line, i1 + 1, line.len());
    let i2 = index_of(&rest, ' ');
    let dir = chars_range(&rest, 0, i2);
    let payload = if i2 < rest.len() { chars_range(&rest, i2 + 1, rest.len()) } else { Vec::new() };
    proof {
        assert(record_fields(line@) == Some((dir@, payload@)));
    }
    let payload_text = string_from_chars(&payload);
    if dir.len() == 1 && dir[0] == 'W' {
        proof {
            assert(dir@ =~= seq!['W']);
        }
        let mut raw = unescape_str(payload_text.as_str());
        if raw.len() > 0 && raw[raw.len() - 1] == 0x0D {
            raw.pop();
        }
        Some(decode_utf8_lossy(raw.as_slice()))
    } else if dir.len() == 1 && dir[0] == 'R' {
        proof {
            assert(dir@ =~= seq!['R']);
        }
        match pending {
            Some(cmd) => {
                let raw = unescape_str(payload_text.as_str());
                let response = decode_utf8_lossy(raw.as_slice());
                pairs.push((cmd, response));
                proof {
                    let ps2 = ps.push((cmd@, response@));
                    assert forall|k: int| 0 <= k < pairs@.len() implies (#[trigger] pairs@[k]).0@ == ps2[k].0
                        && pairs@[k].1@ == ps2[k].1 by {
                        if k < ps.len() {
                            assert(pairs@[k] == old(pairs)@[k]);
                        }
                    }
                }
            },
            None => {},
        }
        None
    } else {
        proof {
            assert(dir@ != seq!['W']);
            assert(dir@ != seq!['R']);
        }
        pending
    }
}

/// Parse the text of a capture file into (command, response) pairs: `W`
/// and `R` lines are paired in sequence (`R.chunk` lines are ignored), their
/// payloads unescaped, and commands lose their trailing `\r` so that they
/// can be fed to `MockTransport::expect()`.
pub fn parse_raw_capture_text(content: &str) -> (pairs: Vec<(String, String)>)
    ensures
        pairs_match(pairs@, capture_pairs(content@)),
{
    let all = str_chars(content);
    let lines = split_text_lines(&all);
    let ghost lv = text_lines(content@);
    let mut pending: Option<String> = None;
    let mut pairs: Vec<(String, String)> = Vec::new();
    let mut i: usize = 0;
    while i < lines.len()
        invariant
            i <= lines.len(),
            lines@.len() == lv.len(),
            forall|k: int| 0 <= k < lines@.len() ==> (#[trigger] lines@[k])@ == lv[k],
            opt_string_view(pending) == capture_state(lv.take(i as int)).0,
            pairs_match(pairs@, capture_state(lv.take(i as int)).1),
        decreases lines.len() - i,
    {
        let ghost before = capture_state(lv.take(i as int));
        proof {
            assert(lv.take(i + 1).drop_last() =~= lv.take(i as int));
            assert(lv.take(i + 1).last() == lv[i as int]);
            assert(capture_state(lv.take(i + 1)) == capture_step(before.0, before.1, lv[i as int]));
        }
        pending = capture_line(&lines[i], pending, &mut pairs, Ghost(before.1));
        i = i + 1;
    }
    proof {
        assert(lv.take(lines.len() as int) =~= lv);
    }
    pairs
}


/// One record line of a capture: time, direction, escaped payload.
pub open spec fn record_line(time: Seq<char>, dir: char, data: Seq<u8>) -> Seq<char> {
    record_text(time, dir, data) + seq!['\n']
}

/// A record line without its line break.
pub open spec fn record_text(time: Seq<char>, dir: char, data: Seq<u8>) -> Seq<char> {
    time + seq![' ', dir, ' '] + escape(data)
}

/// The record lines of exchanges (write time, written bytes, read time, read
/// bytes): each write line followed by its read line.
pub open spec fn exchanges_text(ex: Seq<(Seq<char>, Seq<u8>, Seq<char>, Seq<u8>)>) -> Seq<char>
    decreases ex.len(),
{
    if ex.len() == 0 {
        Seq::empty()
    } else {
        exchanges_text(ex.drop_last()) + record_line(ex.last().0, 'W', ex.last().1) + record_line(
            ex.last().2,
            'R',
            ex.last().3,
        )
    }
}

/// The pairs that replaying exchanges gives: each command as written (less a
/// final carriage return) with the response read.
pub open spec fn replayed(ex: Seq<(Seq<char>, Seq<u8>, Seq<char>, Seq<u8>)>) -> Seq<(Seq<char>, Seq<char>)> {
    Seq::new(ex.len(), |k: int| (written_text(ex[k].1), utf8_lossy(ex[k].3)))
}

/// A time field of a record line: nonempty, not starting a comment, without
/// spaces or line breaks.
pub open spec fn plain_time(t: Seq<char>) -> bool {
    &&& t.len() > 0
    &&& t[0] != '#'
    &&& !t.contains(' ')
    &&& !t.contains('\n')
}

/// Whether every exchange has plain times.
pub open spec fn plain_exchanges(ex: Seq<(Seq<char>, Seq<u8>, Seq<char>, Seq<u8>)>) -> bool {
    forall|k: int| 0 <= k < ex.len() ==> plain_time(#[trigger] ex[k].0) && plain_time(ex[k].2)
}

/// The lines of the record text of exchanges.
pub open spec fn record_lines(ex: Seq<(Seq<char>, Seq<u8>, Seq<char>, Seq<u8>)>) -> Seq<Seq<char>>
    decreases ex.len(),
{
    if ex.len() == 0 {
        Seq::empty()
    } else {
        record_lines(ex.drop_last()).push(record_text(ex.last().0, 'W', ex.last().1)).push(
            record_text(ex.last().2, 'R', ex.last().3),
        )
    }
}

proof fn lemma_escape_plain(data: Seq<u8>)
    ensures
        !escape(data).contains('\n'),
        !escape(data).contains('\r'),
    decreases data.len(),
{
    if data.len() > 0 {
        lemma_escape_plain(data.drop_last());
        let e1 = escape(data.drop_last());
        let e2 = escape_byte(data.last());
        assert(!e2.contains('\n') && !e2.contains('\r')) by {
            let b = data.last();
            if 0x20 <= b && b <= 0x7E && !(b == 0x5C) {
                assert(e2 == seq![b as char]);
                assert((b as char) as int == b as int);
            }
        }
        assert forall|c: char| (escape(data)).contains(c) implies e1.contains(c) || e2.contains(c) by {
            let k = choose|k: int| 0 <= k < escape(data).len() && escape(data)[k] == c;
            if k < e1.len() {
                assert(e1[k] == c);
            } else {
                assert(e2[k - e1.len()] == c);
            }
        }
    }
}

proof fn lemma_record_line_lines(time: Seq<char>, dir: char, data: Seq<u8>)
    requires
        plain_time(time),
        dir != '\n' && dir != '\r',
    ensures
        text_lines(record_line(time, dir, data)) == seq![record_text(time, dir, data)],
{
    let x = record_text(time, dir, data);
    lemma_escape_plain(data);
    lemma_concat_lacks(time, seq![' ', dir, ' '], '\n');
    lemma_concat_lacks(time + seq![' ', dir, ' '], escape(data), '\n');
    lemma_text_lines_single(x);
    assert(x.last() != '\r') by {
        let e = escape(data);
        if e.len() > 0 {
            assert(x.last() == e[e.len() - 1]);
            assert(e.contains(e[e.len() - 1]));
        } else {
            assert(x.last() == ' ');
        }
    }
    assert(strip_cr(x) == x);
}

proof fn lemma_exchanges_lines(ex: Seq<(Seq<char>, Seq<u8>, Seq<char>, Seq<u8>)>)
    requires
        plain_exchanges(ex),
    ensures
        text_lines(exchanges_text(ex)) == record_lines(ex),
        exchanges_text(ex).len() == 0 || exchanges_text(ex).last() == '\n',
    decreases ex.len(),
{
    if ex.len() == 0 {
        reveal(text_lines);
        assert(text_lines(exchanges_text(ex)) =~= record_lines(ex));
    } else {
        let e1 = ex.drop_last();
        assert(plain_exchanges(e1)) by {
            assert forall|k: int| 0 <= k < e1.len() implies plain_time(#[trigger] e1[k].0) && plain_time(e1[k].2) by {
                assert(e1[k] == ex[k]);
            }
        }
        lemma_exchanges_lines(e1);
        let last = ex.last();
        assert(plain_time(last.0) && plain_time(last.2)) by {
            assert(ex[ex.len() - 1] == last);
        }
        let x = exchanges_text(e1);
        let w = record_line(last.0, 'W', last.1);
        let r = record_line(last.2, 'R', last.3);
        lemma_record_line_lines(last.0, 'W', last.1);
        lemma_record_line_lines(last.2, 'R', last.3);
        lemma_text_lines_append(x, w);
        assert((x + w).last() == '\n');
        lemma_text_lines_append(x + w, r);
        assert(exchanges_text(ex) == (x + w) + r);
        assert(text_lines(exchanges_text(ex)) =~= record_lines(ex));
    }
}

proof fn lemma_comment_line(x: Seq<char>)
    requires
        x.len() >= 2,
        x[0] == '#',
        !x.contains('\n'),
    ensures
        text_lines(x + seq!['\n']) == seq![strip_cr(x)],
        strip_cr(x).len() > 0,
        strip_cr(x)[0] == '#',
{
    lemma_text_lines_single(x);
}

/// Whether every line is a comment: nonempty and starting with `#`.
pub open spec fn comment_lines(ls: Seq<Seq<char>>) -> bool {
    forall|k: int| 0 <= k < ls.len() ==> (#[trigger] ls[k]).len() > 0 && ls[k][0] == '#'
}

proof fn lemma_header_lines(meta: CaptureMetadata, started: Seq<char>)
    requires
        !meta.transport_type@.contains('\n'),
        !meta.port_or_device@.contains('\n'),
        !started.contains('\n'),
    ensures
        comment_lines(text_lines(header_text(meta, started))),
        header_text(meta, started).last() == '\n',
{
    reveal_strlit("# obd2-raw v1\n");
    reveal_strlit("# transport=");
    reveal_strlit(" port=");
    reveal_strlit(" baud=");
    reveal_strlit(" device=");
    reveal_strlit("\n");
    reveal_strlit("# started=");
    let nl = seq!['\n'];
    let a = "# obd2-raw v1\n"@.drop_last();
    assert("# obd2-raw v1\n"@ =~= a + nl);
    assert(!a.contains('\n')) by {
        if a.contains('\n') {
            let k = choose|k: int| 0 <= k < a.len() && a[k] == '\n';
            assert(a[k] == "# obd2-raw v1\n"@[k]);
        }
    }
    assert(!"# transport="@.contains('\n')) by {
        if "# transport="@.contains('\n') {
            let k = choose|k: int| 0 <= k < "# transport="@.len() && "# transport="@[k] == '\n';
        }
    }
    assert(!" port="@.contains('\n')) by {
        if " port="@.contains('\n') {
            let k = choose|k: int| 0 <= k < " port="@.len() && " port="@[k] == '\n';
        }
    }
    assert(!" baud="@.contains('\n')) by {
        if " baud="@.contains('\n') {
            let k = choose|k: int| 0 <= k < " baud="@.len() && " baud="@[k] == '\n';
        }
    }
    assert(!" device="@.contains('\n')) by {
        if " device="@.contains('\n') {
            let k = choose|k: int| 0 <= k < " device="@.len() && " device="@[k] == '\n';
        }
    }
    assert(!"# started="@.contains('\n')) by {
        if "# started="@.contains('\n') {
            let k = choose|k: int| 0 <= k < "# started="@.len() && "# started="@[k] == '\n';
        }
    }
    let tt = meta.transport_type@;
    let pd = meta.port_or_device@;
    let b = match meta.baud_rate {
        Some(n) => {
            lemma_decimal_no_newline(n as nat);
            let x = "# transport="@ + tt + " port="@ + pd + " baud="@ + decimal(n as nat);
            lemma_concat_lacks("# transport="@, tt, '\n');
            lemma_concat_lacks("# transport="@ + tt, " port="@, '\n');
            lemma_concat_lacks("# transport="@ + tt + " port="@, pd, '\n');
            lemma_concat_lacks("# transport="@ + tt + " port="@ + pd, " baud="@, '\n');
            lemma_concat_lacks("# transport="@ + tt + " port="@ + pd + " baud="@, decimal(n as nat), '\n');
            assert(x[0] == '#' && x[1] == ' ');
            x
        },
        None => {
            let x = "# transport="@ + tt + " device="@ + pd;
            lemma_concat_lacks("# transport="@, tt, '\n');
            lemma_concat_lacks("# transport="@ + tt, " device="@, '\n');
            lemma_concat_lacks("# transport="@ + tt + " device="@, pd, '\n');
            assert(x[0] == '#' && x[1] == ' ');
            x
        },
    };
    let c = "# started="@ + started;
    lemma_concat_lacks("# started="@, started, '\n');
    assert(c[0] == '#' && c[1] == ' ');
    assert(header_text(meta, started) =~= (a + nl) + (b + nl) + (c + nl));
    lemma_comment_line(a);
    lemma_comment_line(b);
    lemma_comment_line(c);
    lemma_text_lines_append(a + nl, b + nl);
    lemma_text_lines_append((a + nl) + (b + nl), c + nl);
    let ls = text_lines(header_text(meta, started));
    assert(ls =~= seq![strip_cr(a), strip_cr(b), strip_cr(c)]);
}

proof fn lemma_comments_state(ls: Seq<Seq<char>>)
    requires
        comment_lines(ls),
    ensures
        capture_state(ls) == (Option::<Seq<char>>::None, Seq::<(Seq<char>, Seq<char>)>::empty()),
    decreases ls.len(),
{
    if ls.len() > 0 {
        assert(comment_lines(ls.drop_last())) by {
            assert forall|k: int| 0 <= k < ls.drop_last().len() implies (#[trigger] ls.drop_last()[k]).len() > 0
                && ls.drop_last()[k][0] == '#' by {
                assert(ls.drop_last()[k] == ls[k]);
            }
        }
        lemma_comments_state(ls.drop_last());
        assert(ls.last() == ls[ls.len() - 1]);
        reveal(capture_step);
    }
}

proof fn lemma_record_fields(time: Seq<char>, dir: char, p: Seq<char>)
    requires
        plain_time(time),
        dir != ' ',
    ensures
        record_fields(time + seq![' ', dir, ' '] + p) == Some((seq![dir], p)),
{
    let line = time + seq![' ', dir, ' '] + p;
    let n = time.len() as int;
    assert(first_index_of(line, ' ') == n) by {
        assert forall|j: int| 0 <= j < n implies line[j] != ' ' by {
            assert(line[j] == time[j]);
            if time[j] == ' ' {
                assert(time.contains(' '));
            }
        }
        assert(line[n] == ' ');
        lemma_first_index(line, ' ', n);
    }
    let rest = line.subrange(n + 1, line.len() as int);
    assert(rest =~= seq![dir, ' '] + p);
    assert(first_index_of(rest, ' ') == 1) by {
        assert(rest[0] == dir && rest[1] == ' ');
        lemma_first_index(rest, ' ', 1);
    }
    assert(rest.subrange(0, 1) =~= seq![dir]);
    assert(rest.subrange(2, rest.len() as int) =~= p);
}

proof fn lemma_write_step(
    pending: Option<Seq<char>>,
    pairs: Seq<(Seq<char>, Seq<char>)>,
    time: Seq<char>,
    cmd: Seq<u8>,
)
    requires
        plain_time(time),
    ensures
        capture_step(pending, pairs, record_text(time, 'W', cmd)) == (Some(written_text(cmd)), pairs),
{
    let line = record_text(time, 'W', cmd);
    lemma_record_fields(time, 'W', escape(cmd));
    lemma_unescape_escape(cmd);
    assert(line.len() > 0 && line[0] == time[0]);
    reveal(capture_step);
}

proof fn lemma_read_step(
    cmd: Seq<char>,
    pairs: Seq<(Seq<char>, Seq<char>)>,
    time: Seq<char>,
    resp: Seq<u8>,
)
    requires
        plain_time(time),
    ensures
        capture_step(Some(cmd), pairs, record_text(time, 'R', resp)) == (
            Option::<Seq<char>>::None,
            pairs.push((cmd, utf8_lossy(resp))),
        ),
{
    let line = record_text(time, 'R', resp);
    lemma_record_fields(time, 'R', escape(resp));
    lemma_unescape_escape(resp);
    assert(line.len() > 0 && line[0] == time[0]);
    assert(seq!['R'] != seq!['W']) by {
        assert(seq!['R'][0] != seq!['W'][0]);
    }
    reveal(capture_step);
}

proof fn lemma_records_state(hl: Seq<Seq<char>>, ex: Seq<(Seq<char>, Seq<u8>, Seq<char>, Seq<u8>)>)
    requires
        comment_lines(hl),
        plain_exchanges(ex),
    ensures
        capture_state(hl + record_lines(ex)) == (Option::<Seq<char>>::None, replayed(ex)),
    decreases ex.len(),
{
    if ex.len() == 0 {
        assert(hl + record_lines(ex) =~= hl);
        lemma_comments_state(hl);
        assert(replayed(ex) =~= Seq::<(Seq<char>, Seq<char>)>::empty());
    } else {
        let e1 = ex.drop_last();
        assert(plain_exchanges(e1)) by {
            assert forall|k: int| 0 <= k < e1.len() implies plain_time(#[trigger] e1[k].0) && plain_time(e1[k].2) by {
                assert(e1[k] == ex[k]);
            }
        }
        lemma_records_state(hl, e1);
        let last = ex.last();
        assert(plain_time(last.0) && plain_time(last.2)) by {
            assert(ex[ex.len() - 1] == last);
        }
        let l0 = hl + record_lines(e1);
        let w = record_text(last.0, 'W', last.1);
        let r = record_text(last.2, 'R', last.3);
        let l1 = l0.push(w);
        let l2 = l1.push(r);
        assert(hl + record_lines(ex) =~= l2);
        assert(l2.drop_last() =~= l1);
        assert(l1.drop_last() =~= l0);
        let before = capture_state(l0);
        lemma_write_step(before.0, before.1, last.0, last.1);
        assert(capture_state(l1) == capture_step(before.0, before.1, w));
        assert(capture_state(l1) == (Some(written_text(last.1)), replayed(e1)));
        lemma_read_step(written_text(last.1), replayed(e1), last.2, last.3);
        assert(capture_state(l2) == capture_step(capture_state(l1).0, capture_state(l1).1, r));
        assert(replayed(ex) =~= replayed(e1).push((written_text(last.1), utf8_lossy(last.3))));
    }
}

/// A capture reads back as what was recorded: the header followed by a
/// write line and a read line per exchange parses into each exchange's
/// command (as written, less a final carriage return) and response, in
/// order.
pub proof fn lemma_capture_replays_exchanges(
    meta: CaptureMetadata,
    started: Seq<char>,
    ex: Seq<(Seq<char>, Seq<u8>, Seq<char>, Seq<u8>)>,
)
    requires
        !meta.transport_type@.contains('\n'),
        !meta.port_or_device@.contains('\n'),
        !started.contains('\n'),
        plain_exchanges(ex),
    ensures
        capture_pairs(header_text(meta, started) + exchanges_text(ex)) == replayed(ex),
{
    lemma_header_lines(meta, started);
    lemma_exchanges_lines(ex);
    lemma_text_lines_append(header_text(meta, started), exchanges_text(ex));
    lemma_records_state(text_lines(header_text(meta, started)), ex);
}

} // verus!
