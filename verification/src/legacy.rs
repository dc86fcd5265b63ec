//! The answer to the pre-1.7 server-list ping (a lone `0xFE` byte from the client).

use crate::config::ServerInfo;
use crate::text::{decimal, push_char, push_decimal, push_str};
use crate::wire::utf8;
use vstd::prelude::*;
use vstd::string::StringSliceAdditionalSpecFns;

verus! {

/// The text of the answer: `§1`, the protocol number, the version name, the message of the
/// day, the online count (always `0`) and the maximum, separated by NUL characters.
pub open spec fn legacy_ping_text(motd: Seq<char>, max_players: nat) -> Seq<char> {
    seq!['\u{a7}', '1', '\0'] + decimal(756) + seq!['\0'] + "1.17.1"@ + seq!['\0'] + motd + seq![
        '\0',
        '0',
        '\0',
    ] + decimal(max_players)
}

/// The UTF-16 code units of one character, big-endian.
pub open spec fn char_utf16_be(c: char) -> Seq<u8> {
    let v = c as nat;
    if v < 0x10000 {
        seq![(v / 256) as u8, (v % 256) as u8]
    } else {
        let w = (v - 0x10000) as nat;
        let hi = 0xD800 + w / 1024;
        let lo = 0xDC00 + w % 1024;
        seq![(hi / 256) as u8, (hi % 256) as u8, (lo / 256) as u8, (lo % 256) as u8]
    }
}

/// The UTF-16 encoding of a character sequence, big-endian.
pub open spec fn utf16_be(chars: Seq<char>) -> Seq<u8>
    decreases chars.len(),
{
    if chars.len() == 0 {
        Seq::empty()
    } else {
        utf16_be(chars.drop_last()) + char_utf16_be(chars.last())
    }
}

/// The whole answer: `0xFF`, then the UTF-8 byte length of the text cut to sixteen bits,
/// big-endian, then the text in UTF-16, big-endian.
pub open spec fn legacy_ping_bytes(motd: Seq<char>, max_players: nat) -> Seq<u8> {
    let text = legacy_ping_text(motd, max_players);
    let len = utf8(text).len() % 0x10000;
    seq![0xFFu8, (len / 256) as u8, (len % 256) as u8] + utf16_be(text)
}

/// Appends the big-endian UTF-16 code units of `c`.
fn push_utf16_be(out: &mut Vec<u8>, c: char)
    ensures
        final(out)@ == old(out)@ + char_utf16_be(c),
{
    broadcast use vstd::utf8::char_is_scalar;

    let v = c as u32;
    assert(vstd::utf8::is_scalar(v));
    let ghost start = out@;
    if v < 0x10000 {
        out.push((v / 256) as u8);
        out.push((v % 256) as u8);
    } else {
        let w = v - 0x10000;
        let hi = 0xD800 + w / 1024;
        let lo = 0xDC00 + w % 1024;
        out.push((hi / 256) as u8);
        out.push((hi % 256) as u8);
        out.push((lo / 256) as u8);
        out.push((lo % 256) as u8);
    }
    assert(out@ == start + char_utf16_be(c));
}

/// Appends the big-endian UTF-16 encoding of `s`.
fn push_utf16_be_str(out: &mut Vec<u8>, s: &str)
    ensures
        final(out)@ == old(out)@ + utf16_be(s@),
{
    broadcast use vstd::string::axiom_spec_iter;

    let ghost start = out@;
    for c in it: s.chars()
        invariant
            it.seq() == s@,
            out@ == start + utf16_be(s@.subrange(0, it.index())),
    {
        let ghost i = it.index();
        proof {
            assert(c == s@[i]);
            assert(s@.subrange(0, i + 1).drop_last() == s@.subrange(0, i));
            assert(s@.subrange(0, i + 1).last() == c);
        }
        push_utf16_be(out, c);
    }
    assert(s@.subrange(0, s@.len() as int) == s@);
}

/// The answer to a legacy server-list ping, made from the message of the day and the maximum
/// player count.
pub fn legacy_handle_mc_ping(info: &ServerInfo) -> (r: Vec<u8>)
    ensures
        r@ == legacy_ping_bytes(info.motd@, info.max_players as nat),
{
    let mut text = String::new();
    push_char(&mut text, '\u{a7}');
    push_char(&mut text, '1');
    push_char(&mut text, '\0');
    push_decimal(&mut text, 756);
    push_char(&mut text, '\0');
    push_str(&mut text, "1.17.1");
    push_char(&mut text, '\0');
    push_str(&mut text, info.motd.as_str());
    push_char(&mut text, '\0');
    push_char(&mut text, '0');
    push_char(&mut text, '\0');
    push_decimal(&mut text, info.max_players as u64);
    assert(text@ == legacy_ping_text(info.motd@, info.max_players as nat));
    let view = text.as_str();
    let len = view.as_bytes().len();
    proof {
        assert(view.spec_bytes() == utf8(text@));
    }
    let cut: u64 = (len as u64) % 0x10000;
    let mut out: Vec<u8> = Vec::new();
    out.push(0xFFu8);
    out.push((cut / 256) as u8);
    out.push((cut % 256) as u8);
    push_utf16_be_str(&mut out, view);
    out
}

} // verus!
