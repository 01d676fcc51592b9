use vstd::prelude::*;

use crate::command::{members_wire, option_models, term_model, wire, lemma_option_models, Command, Term};
use crate::datum::{nat_text, quote, write_nat};
use crate::protocol::QueryType;

verus! {

/// `k` bytes holding `n` little-endian (the low byte first).
pub open spec fn le_bytes(n: nat, k: nat) -> Seq<u8>
    decreases k,
{
    if k == 0 {
        Seq::empty()
    } else {
        seq![(n % 256) as u8] + le_bytes(n / 256, (k - 1) as nat)
    }
}

/// The number that the bytes `s` hold little-endian.
pub open spec fn le_value(s: Seq<u8>) -> nat
    decreases s.len(),
{
    if s.len() == 0 {
        0
    } else {
        s[0] as nat + 256 * le_value(s.subrange(1, s.len() as int))
    }
}

pub open spec fn pow256(k: nat) -> nat
    decreases k,
{
    if k == 0 {
        1
    } else {
        256 * pow256((k - 1) as nat)
    }
}

/// A query frame: the token in eight bytes, the length of the body in four,
/// then the body.
pub open spec fn frame_bytes(token: u64, body: Seq<u8>) -> Seq<u8> {
    le_bytes(token as nat, 8) + le_bytes(body.len(), 4) + body
}

/// The JSON body of a query: `[type]`, `[type,term]`, or `[type,term,{options}]`
/// (`[type,{options}]` without a term).
pub open spec fn query_wire(
    kind: QueryType,
    term: Option<Term>,
    opts: Seq<(Seq<char>, Term)>,
) -> Seq<char> {
    "["@ + nat_text(kind.spec_code()) + (match term {
        Some(t) => ","@ + wire(t),
        None => Seq::empty(),
    }) + (if opts.len() == 0 {
        Seq::empty()
    } else {
        ",{"@ + members_wire(opts) + "}"@
    }) + "]"@
}

pub proof fn lemma_le_value_bound(s: Seq<u8>)
    ensures
        le_value(s) < pow256(s.len()),
    decreases s.len(),
{
    if s.len() > 0 {
        let rest = s.subrange(1, s.len() as int);
        lemma_le_value_bound(rest);
        let v = le_value(rest);
        let p = pow256(rest.len());
        assert(s[0] as nat + 256 * v < 256 * p) by (nonlinear_arith)
            requires
                v < p,
                s[0] < 256,
        ;
    }
}

fn write_le(out: &mut Vec<u8>, n: u64, k: usize)
    ensures
        final(out)@ == old(out)@ + le_bytes(n as nat, k as nat),
    decreases k,
{
    if k > 0 {
        let ghost before = out@;
        out.push((n % 256) as u8);
        write_le(out, n / 256, k - 1);
        assert(final(out)@ =~= before + le_bytes(n as nat, k as nat));
    }
}

/// The frame that carries the query `body` under `token` (see `frame_bytes`).
pub fn encode_frame(token: u64, body: &[u8]) -> (res: Vec<u8>)
    requires
        body@.len() <= u32::MAX,
    ensures
        res@ == frame_bytes(token, body@),
{
    let mut res: Vec<u8> = Vec::new();
    write_le(&mut res, token, 8);
    write_le(&mut res, body.len() as u64, 4);
    let ghost head = res@;
    let mut i: usize = 0;
    while i < body.len()
        invariant
            i <= body@.len(),
            res@ == head + body@.subrange(0, i as int),
        decreases body@.len() - i,
    {
        res.push(body[i]);
        assert(res@ =~= head + body@.subrange(0, i + 1));
        i = i + 1;
    }
    assert(body@.subrange(0, body@.len() as int) =~= body@);
    res
}

fn read_le(s: &[u8], from: usize, k: usize) -> (v: u64)
    requires
        k <= 8,
        from + k <= s@.len(),
    ensures
        v as nat == le_value(s@.subrange(from as int, from + k)),
    decreases k,
{
    if k == 0 {
        0
    } else {
        let len = s.len();
        assert(from + 1 <= len);
        let rest = read_le(s, from + 1, k - 1);
        proof {
            let part = s@.subrange(from as int, from + k);
            assert(part.subrange(1, part.len() as int) =~= s@.subrange(from + 1, from + k));
            lemma_le_value_bound(s@.subrange(from + 1, from + k));
            reveal_with_fuel(pow256, 8);
            assert(pow256(7) == 72057594037927936);
            lemma_pow256_mono((k - 1) as nat, 7);
            assert(256 * (rest as nat) + 255 <= u64::MAX) by (nonlinear_arith)
                requires
                    rest < 72057594037927936nat,
            ;
        }
        (s[from] as u64) + 256 * rest
    }
}

proof fn lemma_pow256_mono(a: nat, b: nat)
    requires
        a <= b,
    ensures
        pow256(a) <= pow256(b),
    decreases b,
{
    if a < b {
        lemma_pow256_mono(a, (b - 1) as nat);
    }
}

/// Reads the header of a response frame: its token (eight bytes) and the
/// length of its body (four), both little-endian. `None` when fewer than
/// twelve bytes are given.
pub fn decode_header(header: &[u8]) -> (res: Option<(u64, u32)>)
    ensures
        match res {
            None => header@.len() < 12,
            Some((token, len)) => header@.len() >= 12 && token as nat == le_value(
                header@.subrange(0, 8),
            ) && len as nat == le_value(header@.subrange(8, 12)),
        },
{
    if header.len() < 12 {
        return None;
    }
    let token = read_le(header, 0, 8);
    let len = read_le(header, 8, 4);
    proof {
        lemma_le_value_bound(header@.subrange(8, 12));
        reveal_with_fuel(pow256, 5);
        assert(pow256(4) == 4294967296);
    }
    Some((token, len as u32))
}

/// Appends the `"name":term` text of `opts`, comma-separated.
fn write_members(opts: &Vec<(String, Command)>, out: &mut String)
    ensures
        final(out)@ == old(out)@ + members_wire(option_models(opts@)),
{
    let ghost om = option_models(opts@);
    proof {
        lemma_option_models(opts@);
    }
    let ghost head = out@;
    let mut i: usize = 0;
    while i < opts.len()
        invariant
            i <= opts.len(),
            om == option_models(opts@),
            om.len() == opts@.len(),
            forall|j: int|
                0 <= j < opts@.len() ==> #[trigger] om[j] == (opts@[j].0@, term_model(opts@[j].1)),
            out@ == head + members_wire(om.subrange(0, i as int)),
        decreases opts.len() - i,
    {
        if i > 0 {
            out.append(",");
        }
        let q = quote(opts[i].0.as_str());
        out.append(q.as_str());
        out.append(":");
        opts[i].1.write_wire(out);
        proof {
            let t = om.subrange(0, i + 1);
            assert(t.subrange(0, t.len() - 1) =~= om.subrange(0, i as int));
        }
        i = i + 1;
    }
    proof {
        assert(om.subrange(0, opts@.len() as int) =~= om);
    }
}

/// The JSON body of a query (see `query_wire`).
pub fn query_text(kind: QueryType, term: Option<&Command>, opts: &Vec<(String, Command)>) -> (res:
    String)
    ensures
        res@ == query_wire(
            kind,
            match term {
                Some(t) => Some(t@),
                None => None,
            },
            option_models(opts@),
        ),
{
    let mut res = String::new();
    res.append("[");
    write_nat(&mut res, kind.code() as u64);
    match term {
        Some(t) => {
            res.append(",");
            t.write_wire(&mut res);
        },
        None => {},
    }
    proof {
        lemma_option_models(opts@);
    }
    if opts.len() > 0 {
        res.append(",{");
        write_members(opts, &mut res);
        res.append("}");
    }
    res.append("]");
    proof {
        assert(res@ =~= query_wire(
            kind,
            match term {
                Some(t) => Some(t@),
                None => None,
            },
            option_models(opts@),
        ));
    }
    res
}

/// The opening bytes of a connection: the protocol version (V0_4), the
/// length of the authorization key in four bytes and the key, then the
/// marker of the JSON protocol.
pub open spec fn handshake_bytes(auth_key: Seq<u8>) -> Seq<u8> {
    seq![0x20u8, 0x2du8, 0x0cu8, 0x40u8] + le_bytes(auth_key.len(), 4) + auth_key + seq![
        0xc7u8,
        0x70u8,
        0x69u8,
        0x7eu8,
    ]
}

/// The opening bytes of a connection (see `handshake_bytes`).
pub fn handshake(auth_key: &[u8]) -> (res: Vec<u8>)
    requires
        auth_key@.len() <= u32::MAX,
    ensures
        res@ == handshake_bytes(auth_key@),
{
    let mut res: Vec<u8> = vec![0x20u8, 0x2du8, 0x0cu8, 0x40u8];
    write_le(&mut res, auth_key.len() as u64, 4);
    let ghost head = res@;
    let mut i: usize = 0;
    while i < auth_key.len()
        invariant
            i <= auth_key@.len(),
            res@ == head + auth_key@.subrange(0, i as int),
        decreases auth_key@.len() - i,
    {
        res.push(auth_key[i]);
        assert(res@ =~= head + auth_key@.subrange(0, i + 1));
        i = i + 1;
    }
    res.push(0xc7u8);
    res.push(0x70u8);
    res.push(0x69u8);
    res.push(0x7eu8);
    assert(res@ =~= handshake_bytes(auth_key@));
    res
}

} // verus!
