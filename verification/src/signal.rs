//! Stop-signal decisions. A recording is told to stop in one of three ways:
//! a raw-mode key listener watching for the byte `b'q'`, a line listener
//! waiting for the command `"1"`, or a sentinel file polled on every frame.
//! Each way reduces here to a pure decision on the observed input; the reads
//! themselves (the terminal, standard input, the file) stay outside the
//! library, which is handed the value that was read.

use vstd::prelude::*;
use crate::token::CancelToken;

verus! {

/// The raw-mode listener stops only on the byte `b'q'` (0x71); every other
/// byte is silently ignored and the listener keeps reading.
pub fn raw_byte_stops(byte: u8) -> (stop: bool)
    ensures
        stop <==> byte == 113,
{
    byte == 113
}

/// The raw-mode listener's whole step: a read that returned `n_read` bytes,
/// the first of them `byte`, stops the listener exactly when one byte came
/// in and that byte was `b'q'`.
pub fn raw_read_stops(n_read: usize, byte: u8) -> (stop: bool)
    ensures
        stop <==> (n_read == 1 && byte == 113),
{
    n_read == 1 && raw_byte_stops(byte)
}

/// One step of the raw-mode listener's loop, after a read from the
/// terminal: when the read delivered exactly the byte `b'q'`, requests the
/// stop on the shared token and reports the listener done; on anything else
/// the token is left alone and the listener keeps reading.
pub fn apply_raw_read(token: &CancelToken, n_read: usize, byte: u8) -> (done: bool)
    ensures
        done <==> (n_read == 1 && byte == 113),
{
    let stop = raw_read_stops(n_read, byte);
    if stop {
        token.request_stop();
    }
    stop
}

/// The characters trimmed from around a typed command line: the Unicode
/// `White_Space` set, the same set `str::trim` removes.
pub open spec fn is_space_char(c: char) -> bool {
    ||| ('\u{0009}' <= c && c <= '\u{000D}')
    ||| c == ' '
    ||| c == '\u{0085}'
    ||| c == '\u{00A0}'
    ||| c == '\u{1680}'
    ||| ('\u{2000}' <= c && c <= '\u{200A}')
    ||| c == '\u{2028}'
    ||| c == '\u{2029}'
    ||| c == '\u{202F}'
    ||| c == '\u{205F}'
    ||| c == '\u{3000}'
}

fn is_space(c: char) -> (r: bool)
    ensures
        r == is_space_char(c),
{
    ('\u{0009}' <= c && c <= '\u{000D}') || c == ' ' || c == '\u{0085}' || c == '\u{00A0}' || c
        == '\u{1680}' || ('\u{2000}' <= c && c <= '\u{200A}') || c == '\u{2028}' || c == '\u{2029}'
        || c == '\u{202F}' || c == '\u{205F}' || c == '\u{3000}'
}

/// `s` with its leading whitespace removed.
pub open spec fn trim_front(s: Seq<char>) -> Seq<char>
    decreases s.len(),
{
    if s.len() == 0 {
        s
    } else if is_space_char(s[0]) {
        trim_front(s.drop_first())
    } else {
        s
    }
}

/// `s` with its trailing whitespace removed.
pub open spec fn trim_back(s: Seq<char>) -> Seq<char>
    decreases s.len(),
{
    if s.len() == 0 {
        s
    } else if is_space_char(s.last()) {
        trim_back(s.drop_last())
    } else {
        s
    }
}

/// `s` with both its leading and its trailing whitespace removed.
pub open spec fn trimmed(s: Seq<char>) -> Seq<char> {
    trim_back(trim_front(s))
}

proof fn lemma_trim_front_skips_spaces(s: Seq<char>, i: int)
    requires
        0 <= i <= s.len(),
        forall|k: int| 0 <= k < i ==> is_space_char(s[k]),
    ensures
        trim_front(s) == trim_front(s.skip(i)),
    decreases i,
{
    if i == 0 {
        assert(s.skip(0) =~= s);
    } else {
        assert(is_space_char(s[0]));
        lemma_trim_front_skips_spaces(s.drop_first(), i - 1);
        assert(s.drop_first().skip(i - 1) =~= s.skip(i));
    }
}

proof fn lemma_trim_back_drops_spaces(s: Seq<char>, j: int)
    requires
        0 <= j <= s.len(),
        forall|k: int| j <= k < s.len() ==> is_space_char(s[k]),
    ensures
        trim_back(s) == trim_back(s.take(j)),
    decreases s.len() - j,
{
    if j == s.len() {
        assert(s.take(j) =~= s);
    } else {
        assert(is_space_char(s.last()));
        lemma_trim_back_drops_spaces(s.drop_last(), j);
        assert(s.drop_last().take(j) =~= s.take(j));
    }
}

/// The line listener stops only on the command `"1"`: the typed line,
/// trimmed of surrounding whitespace, must be exactly that one character.
/// Any other line is rejected and the listener keeps waiting.
pub fn line_input_stops(line: &str) -> (stop: bool)
    ensures
        stop <==> trimmed(line@) == seq!['1'],
{
    let ghost s = line@;
    let len = line.unicode_len();
    let mut start: usize = 0;
    while start < len && is_space(line.get_char(start))
        invariant
            s == line@,
            len == s.len(),
            0 <= start <= len,
            forall|k: int| 0 <= k < start ==> is_space_char(s[k]),
        decreases len - start,
    {
        start = start + 1;
    }
    proof {
        lemma_trim_front_skips_spaces(s, start as int);
        if start < len {
            assert(!is_space_char(s.skip(start as int)[0]));
        }
        assert(trim_front(s) == s.skip(start as int));
    }
    let ghost f = s.skip(start as int);
    let mut end: usize = len;
    while end > start && is_space(line.get_char(end - 1))
        invariant
            s == line@,
            len == s.len(),
            0 <= start <= end <= len,
            forall|k: int| end <= k < len ==> is_space_char(s[k]),
        decreases end,
    {
        end = end - 1;
    }
    proof {
        assert(f.len() == len - start);
        assert forall|k: int| end - start <= k < f.len() implies is_space_char(f[k]) by {
            assert(f[k] == s[k + start]);
        }
        lemma_trim_back_drops_spaces(f, end - start);
        if end > start {
            assert(f.take(end - start).last() == s[end - 1]);
            assert(!is_space_char(f.take(end - start).last()));
        }
        assert(trim_back(f) == f.take(end - start));
        assert(trimmed(s) =~= s.subrange(start as int, end as int));
    }
    if end - start == 1 {
        let c = line.get_char(start);
        proof {
            assert(s.subrange(start as int, end as int) =~= seq![s[start as int]]);
            if c == '1' {
                assert(trimmed(s) == seq!['1']);
            } else {
                assert(trimmed(s)[0] != '1');
            }
        }
        c == '1'
    } else {
        proof {
            assert(trimmed(s).len() != 1);
        }
        false
    }
}

/// One step of the line listener's loop, after a line was read from
/// standard input: when the line, trimmed of surrounding whitespace, is the
/// command `"1"`, requests the stop on the shared token and reports the
/// listener done; any other line leaves the token alone, so the caller can
/// reject it and keep waiting.
pub fn apply_line_input(token: &CancelToken, line: &str) -> (done: bool)
    ensures
        done <==> trimmed(line@) == seq!['1'],
{
    let stop = line_input_stops(line);
    if stop {
        token.request_stop();
    }
    stop
}

/// The sentinel poller stops only when the file's whole content is exactly
/// `"1"`, with nothing around it; `"0"`, a trailing newline, or anything
/// else keeps the capture going.
pub fn sentinel_content_stops(content: &str) -> (stop: bool)
    ensures
        stop <==> content@ == "1"@,
{
    proof {
        reveal_strlit("1");
    }
    let len = content.unicode_len();
    if len == 1 {
        let c = content.get_char(0);
        proof {
            if c == '1' {
                assert(content@ =~= "1"@);
            }
        }
        c == '1'
    } else {
        false
    }
}

/// The content the sentinel file is given at startup, before the session
/// starts: `"0"`, which never stops the capture.
pub fn initial_sentinel_content() -> (content: String)
    ensures
        content@ == "0"@,
{
    String::from_str("0")
}

/// Law: the initial sentinel content never stops the capture, for it is not
/// the stop command `"1"`.
pub proof fn lemma_initial_sentinel_does_not_stop()
    ensures
        "0"@ != "1"@,
{
    reveal_strlit("0");
    reveal_strlit("1");
    assert("0"@[0] != "1"@[0]);
}

/// The sentinel file's name, under the program's root directory.
pub fn sentinel_file_name() -> (name: String)
    ensures
        name@ == "trigger.txt"@,
{
    String::from_str("trigger.txt")
}

} // verus!
