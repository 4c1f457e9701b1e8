//! The SCALE wire format of the values the chain extension reads: little
//! endian integers, compact length prefixes, byte strings, options and
//! lists. Each `sd_` spec function is the grammar of one shape, as a
//! decoder over a byte sequence and a position: it yields the value and the
//! position after it, or nothing where no well-formed encoding starts
//! there. The executable decoders are proved to return exactly what the
//! grammar says.
//!
//! Compact prefixes are canonical, as the reference codec demands: each
//! mode accepts only the values too large for the mode below, and the
//! big-integer mode (values of thirty bits and more, which no input read
//! here can need) is not accepted.

use vstd::prelude::*;

verus! {

/// The 32-bit value encoded little endian by four bytes.
pub open spec fn u32_from_le_bytes(b0: u8, b1: u8, b2: u8, b3: u8) -> u32 {
    (b0 as u32) | ((b1 as u32) << 8) | ((b2 as u32) << 16) | ((b3 as u32) << 24)
}

/// The 16-bit value encoded little endian by two bytes.
pub open spec fn u16_from_le_bytes(b0: u8, b1: u8) -> u16 {
    (b0 as u16) | ((b1 as u16) << 8)
}

/// Grammar of a `u32`: four bytes, little endian.
pub open spec fn sd_u32(s: Seq<u8>, pos: int) -> Option<(u32, int)> {
    if 0 <= pos && pos + 4 <= s.len() {
        Some((u32_from_le_bytes(s[pos], s[pos + 1], s[pos + 2], s[pos + 3]), pos + 4))
    } else {
        None
    }
}

/// Grammar of a `bool`: one byte, zero or one.
pub open spec fn sd_bool(s: Seq<u8>, pos: int) -> Option<(bool, int)> {
    if 0 <= pos && pos < s.len() {
        if s[pos] == 0 {
            Some((false, pos + 1))
        } else if s[pos] == 1 {
            Some((true, pos + 1))
        } else {
            None
        }
    } else {
        None
    }
}

/// Grammar of a compact length: the two low bits of the first byte select
/// the width, the value rides in the remaining bits, little endian, and
/// each width admits only the values the next narrower width cannot hold.
pub open spec fn sd_compact(s: Seq<u8>, pos: int) -> Option<(u32, int)> {
    if 0 <= pos && pos < s.len() {
        let b = s[pos];
        if b & 3 == 0 {
            Some(((b >> 2) as u32, pos + 1))
        } else if b & 3 == 1 {
            if pos + 2 <= s.len() {
                let v = (u16_from_le_bytes(s[pos], s[pos + 1]) >> 2) as u32;
                if v >= 64 {
                    Some((v, pos + 2))
                } else {
                    None
                }
            } else {
                None
            }
        } else if b & 3 == 2 {
            if pos + 4 <= s.len() {
                let v = u32_from_le_bytes(s[pos], s[pos + 1], s[pos + 2], s[pos + 3]) >> 2;
                if v >= 16384 {
                    Some((v, pos + 4))
                } else {
                    None
                }
            } else {
                None
            }
        } else {
            None
        }
    } else {
        None
    }
}

/// Grammar of a byte string: a compact length, then that many bytes.
pub open spec fn sd_bytes(s: Seq<u8>, pos: int) -> Option<(Seq<u8>, int)> {
    match sd_compact(s, pos) {
        Some((n, p)) => {
            if p + n <= s.len() {
                Some((s.subrange(p, p + n), p + n))
            } else {
                None
            }
        },
        None => None,
    }
}

/// Grammar of an account id: its raw 32 bytes.
pub open spec fn sd_account(s: Seq<u8>, pos: int) -> Option<(Seq<u8>, int)> {
    if 0 <= pos && pos + 32 <= s.len() {
        Some((s.subrange(pos, pos + 32), pos + 32))
    } else {
        None
    }
}

/// Grammar of `n` consecutive `u32` values.
pub open spec fn sd_u32_seq(s: Seq<u8>, pos: int, n: nat) -> Option<(Seq<u32>, int)>
    decreases n,
{
    if n == 0 {
        Some((Seq::empty(), pos))
    } else {
        match sd_u32(s, pos) {
            Some((v, p1)) => match sd_u32_seq(s, p1, (n - 1) as nat) {
                Some((vs, p2)) => Some((seq![v] + vs, p2)),
                None => None,
            },
            None => None,
        }
    }
}

/// Grammar of a list of `u32`: a compact length, then the elements.
pub open spec fn sd_vec_u32(s: Seq<u8>, pos: int) -> Option<(Seq<u32>, int)> {
    match sd_compact(s, pos) {
        Some((n, p)) => sd_u32_seq(s, p, n as nat),
        None => None,
    }
}

/// Grammar of an option: a tag byte, zero for nothing and one for a value.
pub open spec fn sd_opt_u32(s: Seq<u8>, pos: int) -> Option<(Option<u32>, int)> {
    if 0 <= pos && pos < s.len() {
        if s[pos] == 0 {
            Some((None, pos + 1))
        } else if s[pos] == 1 {
            match sd_u32(s, pos + 1) {
                Some((v, e)) => Some((Some(v), e)),
                None => None,
            }
        } else {
            None
        }
    } else {
        None
    }
}

/// Grammar of an optional byte string.
pub open spec fn sd_opt_bytes(s: Seq<u8>, pos: int) -> Option<(Option<Seq<u8>>, int)> {
    if 0 <= pos && pos < s.len() {
        if s[pos] == 0 {
            Some((None, pos + 1))
        } else if s[pos] == 1 {
            match sd_bytes(s, pos + 1) {
                Some((v, e)) => Some((Some(v), e)),
                None => None,
            }
        } else {
            None
        }
    } else {
        None
    }
}

/// Grammar of an optional pair of `u32`.
pub open spec fn sd_opt_pair_u32(s: Seq<u8>, pos: int) -> Option<(Option<(u32, u32)>, int)> {
    if 0 <= pos && pos < s.len() {
        if s[pos] == 0 {
            Some((None, pos + 1))
        } else if s[pos] == 1 {
            match sd_u32(s, pos + 1) {
                Some((a, p1)) => match sd_u32(s, p1) {
                    Some((b, e)) => Some((Some((a, b)), e)),
                    None => None,
                },
                None => None,
            }
        } else {
            None
        }
    } else {
        None
    }
}

/// Grammar of an optional account id.
pub open spec fn sd_opt_account(s: Seq<u8>, pos: int) -> Option<(Option<Seq<u8>>, int)> {
    if 0 <= pos && pos < s.len() {
        if s[pos] == 0 {
            Some((None, pos + 1))
        } else if s[pos] == 1 {
            match sd_account(s, pos + 1) {
                Some((v, e)) => Some((Some(v), e)),
                None => None,
            }
        } else {
            None
        }
    } else {
        None
    }
}

/// Decode a `u32`, as [`sd_u32`] says.
pub fn dec_u32(input: &[u8], pos: usize) -> (r: Option<(u32, usize)>)
    requires
        pos <= input.len(),
    ensures
        match r {
            Some((v, e)) => sd_u32(input@, pos as int) == Some((v, e as int)) && pos < e
                <= input.len(),
            None => sd_u32(input@, pos as int) is None,
        },
{
    if input.len() - pos >= 4 {
        let b0 = input[pos];
        let b1 = input[pos + 1];
        let b2 = input[pos + 2];
        let b3 = input[pos + 3];
        let v: u32 = (b0 as u32) | ((b1 as u32) << 8) | ((b2 as u32) << 16) | ((b3 as u32) << 24);
        Some((v, pos + 4))
    } else {
        None
    }
}

/// Decode a `bool`, as [`sd_bool`] says.
pub fn dec_bool(input: &[u8], pos: usize) -> (r: Option<(bool, usize)>)
    requires
        pos <= input.len(),
    ensures
        match r {
            Some((v, e)) => sd_bool(input@, pos as int) == Some((v, e as int)) && pos < e
                <= input.len(),
            None => sd_bool(input@, pos as int) is None,
        },
{
    if input.len() - pos >= 1 {
        let b = input[pos];
        if b == 0 {
            Some((false, pos + 1))
        } else if b == 1 {
            Some((true, pos + 1))
        } else {
            None
        }
    } else {
        None
    }
}

/// Decode a compact length, as [`sd_compact`] says.
pub fn dec_compact(input: &[u8], pos: usize) -> (r: Option<(u32, usize)>)
    requires
        pos <= input.len(),
    ensures
        match r {
            Some((v, e)) => sd_compact(input@, pos as int) == Some((v, e as int)) && pos < e
                <= input.len(),
            None => sd_compact(input@, pos as int) is None,
        },
{
    if input.len() - pos < 1 {
        return None;
    }
    let b = input[pos];
    if b & 3 == 0 {
        Some(((b >> 2) as u32, pos + 1))
    } else if b & 3 == 1 {
        if input.len() - pos >= 2 {
            let x: u16 = (input[pos] as u16) | ((input[pos + 1] as u16) << 8);
            let v: u32 = (x >> 2) as u32;
            if v >= 64 {
                Some((v, pos + 2))
            } else {
                None
            }
        } else {
            None
        }
    } else if b & 3 == 2 {
        if input.len() - pos >= 4 {
            let x: u32 = (input[pos] as u32) | ((input[pos + 1] as u32) << 8) | ((input[pos + 2]
                as u32) << 16) | ((input[pos + 3] as u32) << 24);
            let v: u32 = x >> 2;
            if v >= 16384 {
                Some((v, pos + 4))
            } else {
                None
            }
        } else {
            None
        }
    } else {
        None
    }
}

/// Decode a byte string, as [`sd_bytes`] says.
pub fn dec_bytes(input: &[u8], pos: usize) -> (r: Option<(Vec<u8>, usize)>)
    requires
        pos <= input.len(),
    ensures
        match r {
            Some((v, e)) => sd_bytes(input@, pos as int) == Some((v@, e as int)) && pos < e
                <= input.len(),
            None => sd_bytes(input@, pos as int) is None,
        },
{
    match dec_compact(input, pos) {
        Some((n, p)) => {
            if (n as u64) <= (input.len() - p) as u64 {
                let n_usize = n as usize;
                let mut out: Vec<u8> = Vec::new();
                let mut i: usize = 0;
                while i < n_usize
                    invariant
                        p + n_usize <= input.len(),
                        i <= n_usize,
                        out@ == input@.subrange(p as int, p + i),
                    decreases n_usize - i,
                {
                    out.push(input[p + i]);
                    proof {
                        assert(out@ =~= input@.subrange(p as int, p + i + 1));
                    }
                    i = i + 1;
                }
                Some((out, p + n_usize))
            } else {
                None
            }
        },
        None => None,
    }
}

/// Decode an account id, as [`sd_account`] says.
pub fn dec_account(input: &[u8], pos: usize) -> (r: Option<(Vec<u8>, usize)>)
    requires
        pos <= input.len(),
    ensures
        match r {
            Some((v, e)) => sd_account(input@, pos as int) == Some((v@, e as int)) && pos < e
                <= input.len() && v@.len() == 32,
            None => sd_account(input@, pos as int) is None,
        },
{
    if input.len() - pos >= 32 {
        let mut out: Vec<u8> = Vec::new();
        let mut i: usize = 0;
        while i < 32
            invariant
                pos + 32 <= input.len(),
                i <= 32,
                out@ == input@.subrange(pos as int, pos + i),
            decreases 32 - i,
        {
            out.push(input[pos + i]);
            proof {
                assert(out@ =~= input@.subrange(pos as int, pos + i + 1));
            }
            i = i + 1;
        }
        Some((out, pos + 32))
    } else {
        None
    }
}

/// Decode a list of `u32`, as [`sd_vec_u32`] says.
pub fn dec_vec_u32(input: &[u8], pos: usize) -> (r: Option<(Vec<u32>, usize)>)
    requires
        pos <= input.len(),
    ensures
        match r {
            Some((v, e)) => sd_vec_u32(input@, pos as int) == Some((v@, e as int)) && pos < e
                <= input.len(),
            None => sd_vec_u32(input@, pos as int) is None,
        },
{
    match dec_compact(input, pos) {
        Some((n, p0)) => {
            let mut out: Vec<u32> = Vec::new();
            let mut p: usize = p0;
            let mut i: u32 = 0;
            while i < n
                invariant
                    pos < p0 <= input.len(),
                    sd_compact(input@, pos as int) == Some((n, p0 as int)),
                    p <= input.len(),
                    i <= n,
                    out@.len() == i,
                    p0 <= p,
                    ({
                        let whole = sd_u32_seq(input@, p0 as int, n as nat);
                        match sd_u32_seq(input@, p as int, (n - i) as nat) {
                            Some((vs, e)) => whole == Some((out@ + vs, e)),
                            None => whole is None,
                        }
                    }),
                decreases n - i,
            {
                let ghost rem = sd_u32_seq(input@, p as int, (n - i) as nat);
                match dec_u32(input, p) {
                    Some((v, p1)) => {
                        out.push(v);
                        proof {
                            let rem1 = sd_u32_seq(input@, p1 as int, (n - i - 1) as nat);
                            match rem1 {
                                Some((vs1, e1)) => {
                                    assert(rem == Some((seq![v] + vs1, e1)));
                                    assert(out@ + vs1 =~= out@.drop_last() + (seq![v] + vs1));
                                },
                                None => {
                                    assert(rem is None);
                                },
                            }
                        }
                        p = p1;
                        i = i + 1;
                    },
                    None => {
                        proof {
                            assert(rem is None);
                        }
                        return None;
                    },
                }
            }
            proof {
                assert(sd_u32_seq(input@, p as int, 0) == Some((Seq::<u32>::empty(), p as int)));
                assert(out@ + Seq::<u32>::empty() =~= out@);
            }
            Some((out, p))
        },
        None => None,
    }
}

/// Decode an optional `u32`, as [`sd_opt_u32`] says.
pub fn dec_opt_u32(input: &[u8], pos: usize) -> (r: Option<(Option<u32>, usize)>)
    requires
        pos <= input.len(),
    ensures
        match r {
            Some((v, e)) => sd_opt_u32(input@, pos as int) == Some((v, e as int)) && pos < e
                <= input.len(),
            None => sd_opt_u32(input@, pos as int) is None,
        },
{
    if input.len() - pos < 1 {
        return None;
    }
    let b = input[pos];
    if b == 0 {
        Some((None, pos + 1))
    } else if b == 1 {
        match dec_u32(input, pos + 1) {
            Some((v, e)) => Some((Some(v), e)),
            None => None,
        }
    } else {
        None
    }
}

/// Decode an optional byte string, as [`sd_opt_bytes`] says.
pub fn dec_opt_bytes(input: &[u8], pos: usize) -> (r: Option<(Option<Vec<u8>>, usize)>)
    requires
        pos <= input.len(),
    ensures
        match r {
            Some((v, e)) => ({
                let sv = match v {
                    Some(bs) => Some(bs@),
                    None => None,
                };
                sd_opt_bytes(input@, pos as int) == Some((sv, e as int)) && pos < e <= input.len()
            }),
            None => sd_opt_bytes(input@, pos as int) is None,
        },
{
    if input.len() - pos < 1 {
        return None;
    }
    let b = input[pos];
    if b == 0 {
        Some((None, pos + 1))
    } else if b == 1 {
        match dec_bytes(input, pos + 1) {
            Some((v, e)) => Some((Some(v), e)),
            None => None,
        }
    } else {
        None
    }
}

/// Decode an optional pair of `u32`, as [`sd_opt_pair_u32`] says.
pub fn dec_opt_pair_u32(input: &[u8], pos: usize) -> (r: Option<(Option<(u32, u32)>, usize)>)
    requires
        pos <= input.len(),
    ensures
        match r {
            Some((v, e)) => sd_opt_pair_u32(input@, pos as int) == Some((v, e as int)) && pos < e
                <= input.len(),
            None => sd_opt_pair_u32(input@, pos as int) is None,
        },
{
    if input.len() - pos < 1 {
        return None;
    }
    let b = input[pos];
    if b == 0 {
        Some((None, pos + 1))
    } else if b == 1 {
        match dec_u32(input, pos + 1) {
            Some((a, p1)) => match dec_u32(input, p1) {
                Some((c, e)) => Some((Some((a, c)), e)),
                None => None,
            },
            None => None,
        }
    } else {
        None
    }
}

/// Decode an optional account id, as [`sd_opt_account`] says.
pub fn dec_opt_account(input: &[u8], pos: usize) -> (r: Option<(Option<Vec<u8>>, usize)>)
    requires
        pos <= input.len(),
    ensures
        match r {
            Some((v, e)) => ({
                let sv = match v {
                    Some(bs) => Some(bs@),
                    None => None,
                };
                sd_opt_account(input@, pos as int) == Some((sv, e as int)) && pos < e
                    <= input.len()
            }),
            None => sd_opt_account(input@, pos as int) is None,
        },
{
    if input.len() - pos < 1 {
        return None;
    }
    let b = input[pos];
    if b == 0 {
        Some((None, pos + 1))
    } else if b == 1 {
        match dec_account(input, pos + 1) {
            Some((v, e)) => Some((Some(v), e)),
            None => None,
        }
    } else {
        None
    }
}

/// Grammar of a pair of `u32`.
pub open spec fn sd_pair_u32(s: Seq<u8>, pos: int) -> Option<((u32, u32), int)> {
    match sd_u32(s, pos) {
        Some((a, p1)) => match sd_u32(s, p1) {
            Some((b, e)) => Some(((a, b), e)),
            None => None,
        },
        None => None,
    }
}

/// Grammar of a triple of `u32`.
pub open spec fn sd_triple_u32(s: Seq<u8>, pos: int) -> Option<((u32, u32, u32), int)> {
    match sd_u32(s, pos) {
        Some((a, p1)) => match sd_u32(s, p1) {
            Some((b, p2)) => match sd_u32(s, p2) {
                Some((c, e)) => Some(((a, b, c), e)),
                None => None,
            },
            None => None,
        },
        None => None,
    }
}

/// Decode a pair of `u32`, as [`sd_pair_u32`] says.
pub fn dec_pair_u32(input: &[u8], pos: usize) -> (r: Option<((u32, u32), usize)>)
    requires
        pos <= input.len(),
    ensures
        match r {
            Some((v, e)) => sd_pair_u32(input@, pos as int) == Some((v, e as int)) && pos < e
                <= input.len(),
            None => sd_pair_u32(input@, pos as int) is None,
        },
{
    match dec_u32(input, pos) {
        Some((a, p1)) => match dec_u32(input, p1) {
            Some((b, e)) => Some(((a, b), e)),
            None => None,
        },
        None => None,
    }
}

/// Decode a triple of `u32`, as [`sd_triple_u32`] says.
pub fn dec_triple_u32(input: &[u8], pos: usize) -> (r: Option<((u32, u32, u32), usize)>)
    requires
        pos <= input.len(),
    ensures
        match r {
            Some((v, e)) => sd_triple_u32(input@, pos as int) == Some((v, e as int)) && pos < e
                <= input.len(),
            None => sd_triple_u32(input@, pos as int) is None,
        },
{
    match dec_u32(input, pos) {
        Some((a, p1)) => match dec_u32(input, p1) {
            Some((b, p2)) => match dec_u32(input, p2) {
                Some((c, e)) => Some(((a, b, c), e)),
                None => None,
            },
            None => None,
        },
        None => None,
    }
}

} // verus!
