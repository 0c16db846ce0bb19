use vstd::prelude::*;
use vstd::string::StringSliceAdditionalSpecFns;

use crate::error::Error;

verus! {

/// The dispatcher's command vocabulary; currently a single command.
#[derive(Clone, Copy, Debug, PartialEq, Eq, Structural)]
pub enum Command {
    /// Resume the tracee, then wait for and report its next stop.
    Continue,
}

/// The bytes of the one registered command name, `continue`.
pub open spec fn continue_name() -> Seq<u8> {
    seq![0x63u8, 0x6fu8, 0x6eu8, 0x74u8, 0x69u8, 0x6eu8, 0x75u8, 0x65u8]
}

/// Length of the leading token of `s`: the bytes before the first space.
pub open spec fn token_len(s: Seq<u8>) -> int
    decreases s.len(),
{
    if s.len() == 0 {
        0
    } else if s[0] == 32u8 {
        0
    } else {
        1 + token_len(s.drop_first())
    }
}

/// The first space-delimited token of an input line; empty when the line
/// is empty or starts with a space.
pub open spec fn first_token(s: Seq<u8>) -> Seq<u8> {
    s.take(token_len(s))
}

/// A token invokes a command exactly when it is non-empty and a prefix of
/// that command's name.
pub open spec fn token_selects(token: Seq<u8>, name: Seq<u8>) -> bool {
    token.len() > 0 && token.is_prefix_of(name)
}

proof fn lemma_token_len_from_scan(s: Seq<u8>, end: int)
    requires
        0 <= end <= s.len(),
        forall|j: int| 0 <= j < end ==> s[j] != 32u8,
        end == s.len() || s[end] == 32u8,
    ensures
        token_len(s) == end,
    decreases s.len(),
{
    if end > 0 {
        lemma_token_len_from_scan(s.drop_first(), end - 1);
    }
}

fn continue_name_bytes() -> (r: Vec<u8>)
    ensures
        r@ == continue_name(),
{
    let mut v: Vec<u8> = Vec::new();
    v.push(0x63u8);
    v.push(0x6fu8);
    v.push(0x6eu8);
    v.push(0x74u8);
    v.push(0x69u8);
    v.push(0x6eu8);
    v.push(0x75u8);
    v.push(0x65u8);
    proof {
        assert(v@ =~= continue_name());
    }
    v
}

/// Whether the first `end` bytes of `bytes` form a prefix of `name`.
fn is_name_prefix(bytes: &[u8], end: usize, name: &Vec<u8>) -> (r: bool)
    requires
        end <= bytes@.len(),
    ensures
        r == bytes@.take(end as int).is_prefix_of(name@),
{
    if end > name.len() {
        return false;
    }
    let mut i: usize = 0;
    while i < end
        invariant
            i <= end,
            end <= name@.len(),
            end <= bytes@.len(),
            forall|j: int| 0 <= j < i ==> bytes@[j] == name@[j],
        decreases end - i,
    {
        if bytes[i] != name[i] {
            proof {
                if bytes@.take(end as int).is_prefix_of(name@) {
                    assert(bytes@.take(end as int)[i as int] == name@.subrange(
                        0,
                        end as int,
                    )[i as int]);
                }
            }
            return false;
        }
        i = i + 1;
    }
    proof {
        assert(bytes@.take(end as int) =~= name@.subrange(0, end as int));
    }
    true
}

/// Map one line of input text to a command.
///
/// The first space-delimited token of the line is matched by unambiguous
/// prefix against the vocabulary: a non-empty token that is a prefix of
/// `continue` selects [`Command::Continue`]. Any other token, the empty
/// one included, is rejected, and the error carries the offending token.
/// Whatever follows the token is ignored.
pub fn parse_command(input: &str) -> (r: Result<Command, Error>)
    ensures
        ({
            let tok = first_token(input.spec_bytes());
            match r {
                Ok(c) => c == Command::Continue && token_selects(tok, continue_name()),
                Err(e) => !token_selects(tok, continue_name()) && (e matches Error::Command(t)
                    && t@ == tok),
            }
        }),
{
    let bytes: &[u8] = input.as_bytes();
    let ghost s = input.spec_bytes();
    let n: usize = bytes.len();

    let mut end: usize = 0;
    while end < n && bytes[end] != 32u8
        invariant
            bytes@ == s,
            n == s.len(),
            end <= n,
            forall|j: int| 0 <= j < end ==> s[j] != 32u8,
        decreases n - end,
    {
        end = end + 1;
    }
    proof {
        lemma_token_len_from_scan(s, end as int);
    }

    let name = continue_name_bytes();
    if end >= 1 && is_name_prefix(bytes, end, &name) {
        Ok(Command::Continue)
    } else {
        let mut token: Vec<u8> = Vec::new();
        let mut i: usize = 0;
        while i < end
            invariant
                bytes@ == s,
                i <= end,
                end <= s.len(),
                token@ == s.take(i as int),
            decreases end - i,
        {
            token.push(bytes[i]);
            proof {
                assert(s.take(i as int).push(s[i as int]) =~= s.take((i + 1) as int));
            }
            i = i + 1;
        }
        Err(Error::Command(token))
    }
}

} // verus!
