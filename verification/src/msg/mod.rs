//! The console's message catalogue and the command parser.
//!
//! Every response the console emits is built here as a byte sequence with an
//! exact specification; the command parser turns one completed input line
//! into a typed [`Command`].

pub mod entropy;
pub mod hash;
pub mod help;
pub mod info;
pub mod mine;
pub mod reset;
pub mod unknown;
pub mod zeros;

pub use entropy::{send_entropy_message, send_entropy_error_message};
pub use hash::{send_hash_message, send_hash_error_message, send_current_hash_message,
    HashAlgorithm};
pub use help::send_help_message;
pub use info::send_info_message;
pub use mine::{send_mine_start_message, send_mine_result_message, send_mine_error_message,
    send_mine_progress_message};
pub use reset::send_reset_message;
pub use unknown::send_unknown_command_message;
pub use zeros::{send_zeros_message, send_zeros_error_message};

use crate::msg::hash::spec_parse_algorithm;
use crate::text::{ascii_bytes, eq_ignore_ascii_case, token_matches};
use vstd::prelude::*;

verus! {

/// One typed console command, parsed from one completed input line.
#[derive(Debug, PartialEq)]
pub enum Command {
    Help,
    Info,
    Reset,
    SetZeros(u8),
    SetEntropy(u8),
    Mine,
    SetHashAlgorithm(HashAlgorithm),
    QueryHashAlgorithm,
    /// The trimmed input line, truncated to 64 bytes.
    Unrecognized(Vec<u8>),
}

/// The mathematical value of a [`Command`].
pub enum CommandView {
    Help,
    Info,
    Reset,
    SetZeros(u8),
    SetEntropy(u8),
    Mine,
    SetHashAlgorithm(HashAlgorithm),
    QueryHashAlgorithm,
    Unrecognized(Seq<u8>),
}

impl View for Command {
    type V = CommandView;

    open spec fn view(&self) -> CommandView {
        match self {
            Command::Help => CommandView::Help,
            Command::Info => CommandView::Info,
            Command::Reset => CommandView::Reset,
            Command::SetZeros(v) => CommandView::SetZeros(*v),
            Command::SetEntropy(v) => CommandView::SetEntropy(*v),
            Command::Mine => CommandView::Mine,
            Command::SetHashAlgorithm(a) => CommandView::SetHashAlgorithm(*a),
            Command::QueryHashAlgorithm => CommandView::QueryHashAlgorithm,
            Command::Unrecognized(line) => CommandView::Unrecognized(line@),
        }
    }
}

/// Whether a byte separates tokens: ASCII space or horizontal tab.
pub open spec fn is_ws(b: u8) -> bool {
    b == 32 || b == 9
}

/// The leading run of whitespace removed.
pub open spec fn spec_trim_start(s: Seq<u8>) -> Seq<u8>
    decreases s.len(),
{
    if s.len() > 0 && is_ws(s[0]) {
        spec_trim_start(s.skip(1))
    } else {
        s
    }
}

/// The trailing run of whitespace removed.
pub open spec fn spec_trim_end(s: Seq<u8>) -> Seq<u8>
    decreases s.len(),
{
    if s.len() > 0 && is_ws(s.last()) {
        spec_trim_end(s.drop_last())
    } else {
        s
    }
}

/// Leading and trailing whitespace removed.
pub open spec fn spec_trim(s: Seq<u8>) -> Seq<u8> {
    spec_trim_end(spec_trim_start(s))
}

/// The length of the leading run of non-whitespace bytes.
pub open spec fn token_len(s: Seq<u8>) -> nat
    decreases s.len(),
{
    if s.len() == 0 || is_ws(s[0]) {
        0
    } else {
        (1 + token_len(s.skip(1))) as nat
    }
}

/// The leading token is never longer than the sequence.
pub proof fn lemma_token_len_le(s: Seq<u8>)
    ensures
        token_len(s) <= s.len(),
    decreases s.len(),
{
    if s.len() > 0 && !is_ws(s[0]) {
        lemma_token_len_le(s.skip(1));
    }
}

/// A run of `k` non-whitespace bytes ended by whitespace (or the end of the
/// sequence) is exactly the leading token.
pub proof fn lemma_token_len_exact(s: Seq<u8>, k: int)
    requires
        0 <= k <= s.len(),
        forall|i: int| 0 <= i < k ==> !is_ws(s[i]),
        k == s.len() || is_ws(s[k]),
    ensures
        token_len(s) == k,
    decreases k,
{
    if k > 0 {
        lemma_token_len_exact(s.skip(1), k - 1);
    }
}

/// The whitespace-separated tokens of `s`, in order.
pub open spec fn spec_tokens(s: Seq<u8>) -> Seq<Seq<u8>>
    decreases s.len(),
    via spec_tokens_decreases
{
    if s.len() == 0 {
        Seq::empty()
    } else if is_ws(s[0]) {
        spec_tokens(s.skip(1))
    } else {
        seq![s.take(token_len(s) as int)] + spec_tokens(s.skip(token_len(s) as int))
    }
}

#[via_fn]
proof fn spec_tokens_decreases(s: Seq<u8>) {
    if s.len() > 0 && !is_ws(s[0]) {
        lemma_token_len_le(s);
    }
}

/// Remove leading and trailing whitespace.
pub fn trim(line: &[u8]) -> (r: &[u8])
    ensures
        r@ == spec_trim(line@),
{
    let n = line.len();
    let mut start: usize = 0;
    proof {
        assert(line@.skip(0) =~= line@);
    }
    while start < n && (line[start] == 32 || line[start] == 9)
        invariant
            start <= n == line@.len(),
            spec_trim_start(line@) == spec_trim_start(line@.skip(start as int)),
        decreases n - start,
    {
        proof {
            assert(line@.skip(start as int).skip(1) =~= line@.skip(start as int + 1));
        }
        start = start + 1;
    }
    proof {
        assert(spec_trim_start(line@) =~= line@.skip(start as int));
    }
    let mut end: usize = n;
    while end > start && (line[end - 1] == 32 || line[end - 1] == 9)
        invariant
            start <= end <= n == line@.len(),
            spec_trim_start(line@) == line@.skip(start as int),
            spec_trim_end(line@.skip(start as int)) == spec_trim_end(
                line@.subrange(start as int, end as int),
            ),
        decreases end,
    {
        proof {
            assert(line@.subrange(start as int, end as int).drop_last() =~= line@.subrange(
                start as int,
                end - 1,
            ));
        }
        end = end - 1;
    }
    proof {
        assert(line@.skip(start as int) =~= line@.subrange(start as int, line@.len() as int));
        assert(spec_trim_end(line@.subrange(start as int, end as int)) =~= line@.subrange(
            start as int,
            end as int,
        ));
    }
    vstd::slice::slice_subrange(line, start, end)
}

/// Split `line` into its whitespace-separated tokens.
pub fn tokenize(line: &[u8]) -> (r: Vec<Vec<u8>>)
    ensures
        r.deep_view() == spec_tokens(line@),
{
    let n = line.len();
    let mut toks: Vec<Vec<u8>> = Vec::new();
    let mut i: usize = 0;
    proof {
        assert(line@.skip(0) =~= line@);
        assert(spec_tokens(line@) =~= toks.deep_view() + spec_tokens(line@.skip(0)));
    }
    while i < n
        invariant
            i <= n == line@.len(),
            spec_tokens(line@) =~= toks.deep_view() + spec_tokens(line@.skip(i as int)),
        decreases n - i,
    {
        let b = line[i];
        if b == 32 || b == 9 {
            proof {
                assert(line@.skip(i as int).skip(1) =~= line@.skip(i as int + 1));
            }
            i = i + 1;
        } else {
            let start = i;
            let mut j = i + 1;
            while j < n && line[j] != 32 && line[j] != 9
                invariant
                    start < j <= n == line@.len(),
                    forall|k: int| start <= k < j ==> !is_ws(line@[k]),
                decreases n - j,
            {
                j = j + 1;
            }
            let tok = vstd::slice::slice_to_vec(vstd::slice::slice_subrange(line, start, j));
            let ghost pre = toks.deep_view();
            toks.push(tok);
            proof {
                assert(tok.deep_view() =~= tok@);
                assert(toks.deep_view() =~= pre.push(tok@));
                let rest = line@.skip(start as int);
                lemma_token_len_exact(rest, j - start);
                assert(rest.take(token_len(rest) as int) =~= line@.subrange(
                    start as int,
                    j as int,
                ));
                assert(rest.skip(token_len(rest) as int) =~= line@.skip(j as int));
                assert(spec_tokens(line@) =~= toks.deep_view() + spec_tokens(
                    line@.skip(j as int),
                ));
            }
            i = j;
        }
    }
    proof {
        assert(line@.skip(n as int) =~= Seq::<u8>::empty());
        assert(spec_tokens(line@) =~= toks.deep_view());
    }
    toks
}

/// Whether a byte is an ASCII decimal digit.
pub open spec fn is_dec_digit(b: u8) -> bool {
    ('0' as u8) <= b <= ('9' as u8)
}

/// Whether every byte of `s` is an ASCII decimal digit.
pub open spec fn all_dec_digits(s: Seq<u8>) -> bool {
    forall|i: int| 0 <= i < s.len() ==> is_dec_digit(s[i])
}

/// The value of a sequence of decimal digit bytes, most significant first.
pub open spec fn dec_value(digits: Seq<u8>) -> nat
    decreases digits.len(),
{
    if digits.len() == 0 {
        0
    } else {
        (dec_value(digits.drop_last()) * 10 + (digits.last() - ('0' as u8))) as nat
    }
}

/// The unsigned 8-bit value a token denotes, if any: an optional `+` sign,
/// then one or more decimal digits with a value of at most 255.
pub open spec fn spec_parse_u8(t: Seq<u8>) -> Option<u8> {
    let digits = if t.len() > 0 && t[0] == ('+' as u8) {
        t.skip(1)
    } else {
        t
    };
    if digits.len() == 0 || !all_dec_digits(digits) {
        None
    } else if dec_value(digits) > 255 {
        None
    } else {
        Some(dec_value(digits) as u8)
    }
}

/// Parse a token as an unsigned 8-bit integer.
pub fn parse_u8(t: &[u8]) -> (r: Option<u8>)
    ensures
        r == spec_parse_u8(t@),
{
    let n = t.len();
    let offset: usize = if n > 0 && t[0] == 43 {
        1
    } else {
        0
    };
    let ghost digits = if t@.len() > 0 && t@[0] == ('+' as u8) {
        t@.skip(1)
    } else {
        t@
    };
    proof {
        assert(digits =~= t@.subrange(offset as int, n as int));
    }
    if offset == n {
        return None;
    }
    let mut acc: u32 = 0;
    let mut i: usize = offset;
    while i < n
        invariant
            offset <= i <= n == t@.len(),
            offset == (if t@.len() > 0 && t@[0] == ('+' as u8) {
                1int
            } else {
                0int
            }),
            forall|k: int| offset <= k < i ==> is_dec_digit(t@[k]),
            acc <= 255 ==> acc == dec_value(t@.subrange(offset as int, i as int)),
            acc > 255 ==> dec_value(t@.subrange(offset as int, i as int)) > 255,
            acc <= 2559,
        decreases n - i,
    {
        let b = t[i];
        if b < 48 || b > 57 {
            proof {
                let sd = if t@.len() > 0 && t@[0] == ('+' as u8) {
                    t@.skip(1)
                } else {
                    t@
                };
                assert(sd =~= t@.subrange(offset as int, n as int));
                assert(sd[i - offset] == t@[i as int]);
                assert(!is_dec_digit(sd[i - offset]));
                assert(!all_dec_digits(sd));
            }
            return None;
        }
        let ghost prefix = t@.subrange(offset as int, i as int);
        if acc <= 255 {
            acc = acc * 10 + ((b - 48) as u32);
        }
        i = i + 1;
        proof {
            let prefix1 = t@.subrange(offset as int, i as int);
            assert(prefix1.drop_last() =~= prefix);
            assert(prefix1.last() == b);
            assert(dec_value(prefix1) == dec_value(prefix) * 10 + (b - 48));
        }
    }
    proof {
        assert(digits =~= t@.subrange(offset as int, n as int));
        assert(all_dec_digits(digits));
    }
    if acc > 255 {
        None
    } else {
        Some(acc as u8)
    }
}

/// The trimmed line, truncated to at most 64 bytes, as carried by an
/// unrecognized command.
pub open spec fn spec_truncated(s: Seq<u8>) -> Seq<u8> {
    if s.len() <= 64 {
        s
    } else {
        s.take(64)
    }
}

/// Copy at most the first 64 bytes of a line.
fn truncated(line: &[u8]) -> (r: Vec<u8>)
    ensures
        r@ == spec_truncated(line@),
{
    let k = if line.len() > 64 {
        64
    } else {
        line.len()
    };
    let r = vstd::slice::slice_to_vec(vstd::slice::slice_subrange(line, 0, k));
    proof {
        assert(r@ =~= spec_truncated(line@));
    }
    r
}

/// The command a raw input line denotes. The line is trimmed, split on
/// whitespace, and matched on its first token, ignoring ASCII case; `zeros`
/// and `entropy` need a following 8-bit number, `hash` takes an optional
/// algorithm name, and anything else echoes back as unrecognized.
pub open spec fn spec_parse(line: Seq<u8>) -> CommandView {
    let t = spec_trim(line);
    let toks = spec_tokens(t);
    if toks.len() == 0 {
        CommandView::Unrecognized(spec_truncated(t))
    } else if eq_ignore_ascii_case(toks[0], ascii_bytes("help"@)) {
        CommandView::Help
    } else if eq_ignore_ascii_case(toks[0], ascii_bytes("info"@)) {
        CommandView::Info
    } else if eq_ignore_ascii_case(toks[0], ascii_bytes("reset"@)) {
        CommandView::Reset
    } else if eq_ignore_ascii_case(toks[0], ascii_bytes("zeros"@)) {
        if toks.len() >= 2 {
            match spec_parse_u8(toks[1]) {
                Some(v) => CommandView::SetZeros(v),
                None => CommandView::Unrecognized(spec_truncated(t)),
            }
        } else {
            CommandView::Unrecognized(spec_truncated(t))
        }
    } else if eq_ignore_ascii_case(toks[0], ascii_bytes("entropy"@)) {
        if toks.len() >= 2 {
            match spec_parse_u8(toks[1]) {
                Some(v) => CommandView::SetEntropy(v),
                None => CommandView::Unrecognized(spec_truncated(t)),
            }
        } else {
            CommandView::Unrecognized(spec_truncated(t))
        }
    } else if eq_ignore_ascii_case(toks[0], ascii_bytes("mine"@)) {
        CommandView::Mine
    } else if eq_ignore_ascii_case(toks[0], ascii_bytes("hash"@)) {
        if toks.len() >= 2 {
            match spec_parse_algorithm(toks[1]) {
                Some(a) => CommandView::SetHashAlgorithm(a),
                None => CommandView::Unrecognized(spec_truncated(t)),
            }
        } else {
            CommandView::QueryHashAlgorithm
        }
    } else {
        CommandView::Unrecognized(spec_truncated(t))
    }
}

impl Command {
    /// Parse one completed input line into a command.
    pub fn from_str(cmd: &[u8]) -> (r: Command)
        ensures
            r@ == spec_parse(cmd@),
    {
        let trimmed = trim(cmd);
        let toks = tokenize(trimmed);
        if toks.len() == 0 {
            return Command::Unrecognized(truncated(trimmed));
        }
        proof {
            assert(toks.deep_view()[0] == toks@[0]@);
        }
        let kw = toks[0].as_slice();
        if token_matches(kw, "help") {
            Command::Help
        } else if token_matches(kw, "info") {
            Command::Info
        } else if token_matches(kw, "reset") {
            Command::Reset
        } else if token_matches(kw, "zeros") {
            if toks.len() >= 2 {
                proof {
                    assert(toks.deep_view()[1] == toks@[1]@);
                }
                match parse_u8(toks[1].as_slice()) {
                    Some(v) => Command::SetZeros(v),
                    None => Command::Unrecognized(truncated(trimmed)),
                }
            } else {
                Command::Unrecognized(truncated(trimmed))
            }
        } else if token_matches(kw, "entropy") {
            if toks.len() >= 2 {
                proof {
                    assert(toks.deep_view()[1] == toks@[1]@);
                }
                match parse_u8(toks[1].as_slice()) {
                    Some(v) => Command::SetEntropy(v),
                    None => Command::Unrecognized(truncated(trimmed)),
                }
            } else {
                Command::Unrecognized(truncated(trimmed))
            }
        } else if token_matches(kw, "mine") {
            Command::Mine
        } else if token_matches(kw, "hash") {
            if toks.len() >= 2 {
                proof {
                    assert(toks.deep_view()[1] == toks@[1]@);
                }
                match HashAlgorithm::from_str(toks[1].as_slice()) {
                    Some(a) => Command::SetHashAlgorithm(a),
                    None => Command::Unrecognized(truncated(trimmed)),
                }
            } else {
                Command::QueryHashAlgorithm
            }
        } else {
            Command::Unrecognized(truncated(trimmed))
        }
    }
}

} // verus!
