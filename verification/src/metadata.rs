//! The runtime metadata handoff.
//!
//! The spawned backend receives one environment value: a JSON object
//! `{"listen_addr": ..., "frontend_dev_build_dir": ...}`. The object is
//! framed and escaped here, byte for byte, so the backend's JSON parser
//! reads back exactly the two strings that were put in.

use vstd::prelude::*;

verus! {

/// The lower hex digit for a value below sixteen.
pub open spec fn hex_digit(n: u8) -> u8 {
    if n < 10 {
        (48 + n) as u8
    } else {
        (87 + n) as u8
    }
}

/// How one byte of a string appears inside a JSON string literal: quote and
/// backslash are escaped, control bytes become `\u00XX`, everything else is
/// itself.
pub open spec fn escape_byte(b: u8) -> Seq<u8> {
    if b == 34 {
        seq![92u8, 34u8]
    } else if b == 92 {
        seq![92u8, 92u8]
    } else if b < 32 {
        seq![92u8, 117u8, 48u8, 48u8, hex_digit(b / 16), hex_digit(b % 16)]
    } else {
        seq![b]
    }
}

/// A whole string escaped for a JSON string literal.
pub open spec fn escaped(s: Seq<u8>) -> Seq<u8>
    decreases s.len(),
{
    if s.len() == 0 {
        Seq::<u8>::empty()
    } else {
        escape_byte(s[0]) + escaped(s.drop_first())
    }
}

/// Escaping one more byte appends its escape.
pub proof fn lemma_escaped_push(s: Seq<u8>, b: u8)
    ensures
        escaped(s.push(b)) == escaped(s) + escape_byte(b),
    decreases s.len(),
{
    if s.len() == 0 {
        assert(s.push(b).drop_first() =~= Seq::<u8>::empty());
        assert(s.push(b)[0] == b);
        assert(escaped(Seq::<u8>::empty()) == Seq::<u8>::empty());
        assert(escaped(s.push(b)) =~= escape_byte(b));
        assert(escaped(s) + escape_byte(b) =~= escape_byte(b));
    } else {
        assert(s.push(b)[0] == s[0]);
        assert(s.push(b).drop_first() =~= s.drop_first().push(b));
        lemma_escaped_push(s.drop_first(), b);
        assert(escape_byte(s[0]) + (escaped(s.drop_first()) + escape_byte(b)) =~= escaped(s)
            + escape_byte(b));
    }
}

fn hex_digit_exec(n: u8) -> (r: u8)
    requires
        n < 16,
    ensures
        r == hex_digit(n),
{
    if n < 10 {
        48 + n
    } else {
        87 + n
    }
}

/// Append `s`, escaped for a JSON string literal, to `out`.
pub fn escape_into(out: &mut Vec<u8>, s: &[u8])
    ensures
        final(out)@ == old(out)@ + escaped(s@),
{
    let len = s.len();
    let mut i: usize = 0;
    while i < len
        invariant
            len == s@.len(),
            0 <= i <= len,
            out@ == old(out)@ + escaped(s@.take(i as int)),
        decreases len - i,
    {
        let b = s[i];
        if b == 34 {
            out.push(92);
            out.push(34);
        } else if b == 92 {
            out.push(92);
            out.push(92);
        } else if b < 32 {
            out.push(92);
            out.push(117);
            out.push(48);
            out.push(48);
            out.push(hex_digit_exec(b / 16));
            out.push(hex_digit_exec(b % 16));
        } else {
            out.push(b);
        }
        proof {
            assert(s@.take(i + 1) =~= s@.take(i as int).push(s@[i as int]));
            lemma_escaped_push(s@.take(i as int), s@[i as int]);
            assert(out@ =~= old(out)@ + escaped(s@.take(i + 1)));
        }
        i += 1;
    }
    proof {
        assert(s@.take(len as int) =~= s@);
    }
}

/// `{"listen_addr":"` — the opening of the handoff object.
pub open spec fn meta_open() -> Seq<u8> {
    seq![
        123u8, 34u8, 108u8, 105u8, 115u8, 116u8, 101u8, 110u8, 95u8, 97u8, 100u8, 100u8, 114u8,
        34u8, 58u8, 34u8,
    ]
}

/// `","frontend_dev_build_dir":"` — between the two values.
pub open spec fn meta_mid() -> Seq<u8> {
    seq![
        34u8, 44u8, 34u8, 102u8, 114u8, 111u8, 110u8, 116u8, 101u8, 110u8, 100u8, 95u8, 100u8,
        101u8, 118u8, 95u8, 98u8, 117u8, 105u8, 108u8, 100u8, 95u8, 100u8, 105u8, 114u8, 34u8,
        58u8, 34u8,
    ]
}

/// `"}` — the closing of the handoff object.
pub open spec fn meta_close() -> Seq<u8> {
    seq![34u8, 125u8]
}

/// The whole handoff object for a listen address and a frontend build
/// directory.
pub open spec fn metadata_blob_spec(listen: Seq<u8>, frontend_dir: Seq<u8>) -> Seq<u8> {
    meta_open() + escaped(listen) + meta_mid() + escaped(frontend_dir) + meta_close()
}

/// Build the handoff object handed to the backend process.
pub fn metadata_blob(listen: &[u8], frontend_dir: &[u8]) -> (r: Vec<u8>)
    ensures
        r@ == metadata_blob_spec(listen@, frontend_dir@),
{
    let mut r: Vec<u8> = Vec::new();
    r.push(123);
    r.push(34);
    r.push(108);
    r.push(105);
    r.push(115);
    r.push(116);
    r.push(101);
    r.push(110);
    r.push(95);
    r.push(97);
    r.push(100);
    r.push(100);
    r.push(114);
    r.push(34);
    r.push(58);
    r.push(34);
    proof {
        assert(r@ =~= meta_open());
    }
    escape_into(&mut r, listen);
    let mut mid: Vec<u8> = Vec::new();
    mid.push(34);
    mid.push(44);
    mid.push(34);
    mid.push(102);
    mid.push(114);
    mid.push(111);
    mid.push(110);
    mid.push(116);
    mid.push(101);
    mid.push(110);
    mid.push(100);
    mid.push(95);
    mid.push(100);
    mid.push(101);
    mid.push(118);
    mid.push(95);
    mid.push(98);
    mid.push(117);
    mid.push(105);
    mid.push(108);
    mid.push(100);
    mid.push(95);
    mid.push(100);
    mid.push(105);
    mid.push(114);
    mid.push(34);
    mid.push(58);
    mid.push(34);
    proof {
        assert(mid@ =~= meta_mid());
    }
    crate::layout::push_all(&mut r, mid.as_slice());
    escape_into(&mut r, frontend_dir);
    r.push(34);
    r.push(125);
    proof {
        assert(r@ =~= metadata_blob_spec(listen@, frontend_dir@));
    }
    r
}

} // verus!
