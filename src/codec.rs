use vstd::prelude::*;

verus! {

/// The eight little-endian bytes of `n`.
pub open spec fn le_bytes(n: u64) -> Seq<u8> {
    seq![
        n as u8,
        (n >> 8) as u8,
        (n >> 16) as u8,
        (n >> 24) as u8,
        (n >> 32) as u8,
        (n >> 40) as u8,
        (n >> 48) as u8,
        (n >> 56) as u8,
    ]
}

/// The little-endian value of the eight bytes of `s` from `pos`.
pub open spec fn le_value(s: Seq<u8>, pos: int) -> u64 {
    (s[pos] as u64) | ((s[pos + 1] as u64) << 8) | ((s[pos + 2] as u64) << 16) | ((s[pos + 3] as u64)
        << 24) | ((s[pos + 4] as u64) << 32) | ((s[pos + 5] as u64) << 40) | ((s[pos + 6] as u64)
        << 48) | ((s[pos + 7] as u64) << 56)
}

/// A byte vector with its length in front.
pub open spec fn encode_bytes_spec(v: Seq<u8>) -> Seq<u8> {
    le_bytes(v.len() as u64) + v
}

/// The length-prefixed byte vector at `pos`, and where it ends.
#[verifier::opaque]
pub open spec fn decode_bytes(s: Seq<u8>, pos: int) -> Option<(Seq<u8>, int)> {
    if 0 <= pos && pos + 8 <= s.len() {
        let n = le_value(s, pos) as int;
        if pos + 8 + n <= s.len() {
            Some((s.subrange(pos + 8, pos + 8 + n), pos + 8 + n))
        } else {
            None
        }
    } else {
        None
    }
}

proof fn lemma_le_round_trip(n: u64)
    ensures
        ((n as u8) as u64) | ((((n >> 8) as u8) as u64) << 8) | ((((n >> 16) as u8) as u64) << 16)
            | ((((n >> 24) as u8) as u64) << 24) | ((((n >> 32) as u8) as u64) << 32) | ((((n
            >> 40) as u8) as u64) << 40) | ((((n >> 48) as u8) as u64) << 48) | ((((n >> 56) as u8)
            as u64) << 56) == n,
{
    assert(((n as u8) as u64) | ((((n >> 8) as u8) as u64) << 8) | ((((n >> 16) as u8) as u64)
        << 16) | ((((n >> 24) as u8) as u64) << 24) | ((((n >> 32) as u8) as u64) << 32) | ((((n
        >> 40) as u8) as u64) << 40) | ((((n >> 48) as u8) as u64) << 48) | ((((n >> 56) as u8)
        as u64) << 56) == n) by (bit_vector);
}

/// A length-prefixed vector decodes to itself, wherever it stands.
pub proof fn lemma_decode_encoded(prefix: Seq<u8>, v: Seq<u8>, rest: Seq<u8>)
    requires
        v.len() <= u64::MAX,
    ensures
        decode_bytes(prefix + encode_bytes_spec(v) + rest, prefix.len() as int) == Some(
            (v, (prefix.len() + 8 + v.len()) as int),
        ),
{
    reveal(decode_bytes);
    let s = prefix + encode_bytes_spec(v) + rest;
    let p = prefix.len() as int;
    let n = v.len() as u64;
    lemma_le_round_trip(n);
    assert(s.subrange(p, p + 8) =~= le_bytes(n));
    assert(le_value(s, p) == n);
    assert(s.subrange(p + 8, p + 8 + v.len()) =~= v);
}

/// Appends `v` with its length in front.
pub fn push_encoded(output: &mut Vec<u8>, v: &Vec<u8>)
    ensures
        final(output)@ == old(output)@ + encode_bytes_spec(v@),
{
    let n = v.len() as u64;
    output.push(n as u8);
    output.push((n >> 8) as u8);
    output.push((n >> 16) as u8);
    output.push((n >> 24) as u8);
    output.push((n >> 32) as u8);
    output.push((n >> 40) as u8);
    output.push((n >> 48) as u8);
    output.push((n >> 56) as u8);
    let ghost start = output@;
    let mut i: usize = 0;
    while i < v.len()
        invariant
            i <= v@.len(),
            output@ == start + v@.subrange(0, i as int),
        decreases v@.len() - i,
    {
        output.push(v[i]);
        proof {
            assert(v@.subrange(0, i + 1) =~= v@.subrange(0, i as int).push(v@[i as int]));
        }
        i = i + 1;
    }
    proof {
        assert(v@.subrange(0, v@.len() as int) =~= v@);
        assert(start =~= old(output)@ + le_bytes(n));
        assert(final(output)@ =~= old(output)@ + encode_bytes_spec(v@));
    }
}

/// Reads the length-prefixed vector at `pos`; `None` where it is truncated.
pub fn read_encoded(input: &Vec<u8>, pos: usize) -> (r: Option<(Vec<u8>, usize)>)
    ensures
        match decode_bytes(input@, pos as int) {
            Some((v, end)) => r matches Some((w, e)) && w@ == v && e == end && e <= input@.len(),
            None => r is None,
        },
{
    reveal(decode_bytes);
    if input.len() < 8 || pos > input.len() - 8 {
        return None;
    }
    let n = (input[pos] as u64) | ((input[pos + 1] as u64) << 8) | ((input[pos + 2] as u64) << 16)
        | ((input[pos + 3] as u64) << 24) | ((input[pos + 4] as u64) << 32) | ((input[pos + 5]
        as u64) << 40) | ((input[pos + 6] as u64) << 48) | ((input[pos + 7] as u64) << 56);
    let start = pos + 8;
    if n > (input.len() - start) as u64 {
        return None;
    }
    let end = start + n as usize;
    let mut out: Vec<u8> = Vec::new();
    let mut i: usize = start;
    while i < end
        invariant
            start <= i <= end,
            end <= input@.len(),
            out@ == input@.subrange(start as int, i as int),
        decreases end - i,
    {
        out.push(input[i]);
        proof {
            assert(input@.subrange(start as int, i + 1) =~= input@.subrange(
                start as int,
                i as int,
            ).push(input@[i as int]));
        }
        i = i + 1;
    }
    Some((out, end))
}

} // verus!
