//! Byte-stream framing: each message travels as a header naming the
//! payload's exact byte length, a blank line, and then that many payload
//! bytes.

use vstd::prelude::*;

verus! {

/// The decimal digits of `n`, most significant first, as bytes.
pub open spec fn dec_digits(n: nat) -> Seq<u8>
    decreases n,
{
    if n < 10 {
        seq![(n + 48) as u8]
    } else {
        dec_digits(n / 10).push((n % 10 + 48) as u8)
    }
}

/// The fixed bytes that open a frame header.
pub open spec fn header_prefix() -> Seq<u8> {
    seq![
        67u8,
        111u8,
        110u8,
        116u8,
        101u8,
        110u8,
        116u8,
        45u8,
        76u8,
        101u8,
        110u8,
        103u8,
        116u8,
        104u8,
        58u8,
        32u8,
    ]
}

/// The whole header block announcing a payload of `n` bytes.
pub open spec fn spec_header(n: nat) -> Seq<u8> {
    header_prefix() + dec_digits(n) + seq![13u8, 10u8, 13u8, 10u8]
}

/// A framed payload: the header block, then the payload itself.
pub open spec fn spec_frame(payload: Seq<u8>) -> Seq<u8> {
    spec_header(payload.len()) + payload
}

/// True when every byte of `s` is a decimal digit and there is at least
/// one.
pub open spec fn is_digit_bytes(s: Seq<u8>) -> bool {
    s.len() > 0 && forall|i: int| 0 <= i < s.len() ==> 48 <= #[trigger] s[i] <= 57
}

/// The number a run of digit bytes denotes.
pub open spec fn digits_value(s: Seq<u8>) -> int
    decreases s.len(),
{
    if s.len() == 0 {
        0
    } else {
        digits_value(s.drop_last()) * 10 + (s.last() - 48)
    }
}

fn render_dec(n: usize) -> (r: Vec<u8>)
    ensures
        r@ == dec_digits(n as nat),
    decreases n,
{
    if n < 10 {
        let mut v: Vec<u8> = Vec::new();
        v.push((n as u8) + 48);
        proof {
            assert(v@ =~= dec_digits(n as nat));
        }
        v
    } else {
        let mut v = render_dec(n / 10);
        v.push(((n % 10) as u8) + 48);
        proof {
            assert(v@ =~= dec_digits(n as nat));
        }
        v
    }
}

fn header_prefix_bytes() -> (v: Vec<u8>)
    ensures
        v@ == header_prefix(),
{
    let mut v: Vec<u8> = Vec::new();
    v.push(67);
    v.push(111);
    v.push(110);
    v.push(116);
    v.push(101);
    v.push(110);
    v.push(116);
    v.push(45);
    v.push(76);
    v.push(101);
    v.push(110);
    v.push(103);
    v.push(116);
    v.push(104);
    v.push(58);
    v.push(32);
    proof {
        assert(v@ =~= header_prefix());
    }
    v
}

/// Wraps a payload in its frame: the header naming its byte length, the
/// blank line, and the payload, in order and nothing else.
pub fn encode_frame(payload: Vec<u8>) -> (r: Vec<u8>)
    ensures
        r@ == spec_frame(payload@),
{
    let mut out = header_prefix_bytes();
    let mut digits = render_dec(payload.len());
    out.append(&mut digits);
    out.push(13);
    out.push(10);
    out.push(13);
    out.push(10);
    let mut body = payload;
    out.append(&mut body);
    proof {
        assert(out@ =~= spec_frame(payload@));
    }
    out
}

proof fn lemma_digits_nonneg(s: Seq<u8>)
    requires
        forall|i: int| 0 <= i < s.len() ==> 48 <= #[trigger] s[i] <= 57,
    ensures
        digits_value(s) >= 0,
    decreases s.len(),
{
    if s.len() > 0 {
        assert(forall|i: int|
            0 <= i < s.drop_last().len() ==> 48 <= #[trigger] s.drop_last()[i] <= 57);
        lemma_digits_nonneg(s.drop_last());
    }
}

proof fn lemma_digits_prefix(s: Seq<u8>, k: int)
    requires
        forall|i: int| 0 <= i < s.len() ==> 48 <= #[trigger] s[i] <= 57,
        0 <= k <= s.len(),
    ensures
        digits_value(s) >= digits_value(s.take(k)),
    decreases s.len() - k,
{
    if k < s.len() {
        assert(s.take(k + 1).drop_last() =~= s.take(k));
        assert(s.take(k + 1).last() == s[k]);
        assert(forall|i: int| 0 <= i < s.take(k).len() ==> 48 <= #[trigger] s.take(k)[i] <= 57);
        lemma_digits_nonneg(s.take(k));
        assert(digits_value(s.take(k + 1)) >= digits_value(s.take(k)));
        lemma_digits_prefix(s, k + 1);
        assert(s.take(s.len() as int) =~= s);
    } else {
        assert(s.take(k) =~= s);
    }
}

/// Reads the payload length out of a frame's header line (the line
/// without its line terminator). Returns the announced length exactly
/// when the line is the fixed prefix followed by a run of digits whose
/// value fits the machine; returns nothing on any other line.
pub fn parse_content_length(line: &Vec<u8>) -> (r: Option<usize>)
    ensures
        match r {
            Some(n) => {
                &&& line@.len() > 16
                &&& line@.take(16) == header_prefix()
                &&& is_digit_bytes(line@.skip(16))
                &&& digits_value(line@.skip(16)) == n as int
            },
            None => !({
                &&& line@.len() > 16
                &&& line@.take(16) == header_prefix()
                &&& is_digit_bytes(line@.skip(16))
                &&& digits_value(line@.skip(16)) <= usize::MAX as int
            }),
        },
{
    if line.len() <= 16 {
        return None;
    }
    let prefix = header_prefix_bytes();
    let mut i: usize = 0;
    while i < 16
        invariant
            0 <= i <= 16,
            line@.len() > 16,
            prefix@ == header_prefix(),
            prefix@.len() == 16,
            forall|k: int| 0 <= k < i ==> line@[k] == header_prefix()[k],
        decreases 16 - i,
    {
        if line[i] != prefix[i] {
            proof {
                assert(line@.take(16)[i as int] != header_prefix()[i as int]);
            }
            return None;
        }
        i += 1;
    }
    proof {
        assert(line@.take(16) =~= header_prefix());
    }
    let mut acc: usize = 0;
    let mut j: usize = 16;
    proof {
        assert(line@.subrange(16, 16) =~= Seq::<u8>::empty());
    }
    while j < line.len()
        invariant
            16 <= j <= line@.len(),
            line@.len() > 16,
            line@.take(16) == header_prefix(),
            forall|k: int| 16 <= k < j ==> 48 <= #[trigger] line@[k] <= 57,
            acc as int == digits_value(line@.subrange(16, j as int)),
        decreases line@.len() - j,
    {
        let b = line[j];
        if b < 48 || b > 57 {
            proof {
                assert(line@.skip(16)[j - 16] == line@[j as int]);
                assert(!is_digit_bytes(line@.skip(16)));
            }
            return None;
        }
        let d = (b - 48) as usize;
        let stepped = match acc.checked_mul(10) {
            Some(t) => t.checked_add(d),
            None => None,
        };
        match stepped {
            Some(next) => {
                proof {
                    assert(line@.subrange(16, j + 1).drop_last() =~= line@.subrange(
                        16,
                        j as int,
                    ));
                    assert(line@.subrange(16, j + 1).last() == line@[j as int]);
                }
                acc = next;
            },
            None => {
                // The digits seen so far already outgrow the machine:
                // whatever follows, no representable length is announced.
                proof {
                    let s = line@.skip(16);
                    if is_digit_bytes(s) && digits_value(s) <= usize::MAX as int {
                        assert(forall|k: int| 0 <= k < s.len() ==> 48 <= #[trigger] s[k] <= 57);
                        lemma_digits_prefix(s, j - 16 + 1);
                        assert(s.take(j - 16 + 1).drop_last() =~= line@.subrange(16, j as int));
                        assert(s.take(j - 16 + 1) =~= line@.subrange(16, j + 1));
                        assert(line@.subrange(16, j + 1).drop_last() =~= line@.subrange(
                            16,
                            j as int,
                        ));
                        assert(line@.subrange(16, j + 1).last() == line@[j as int]);
                        assert(digits_value(s.take(j - 16 + 1)) == acc as int * 10 + d);
                        assert(acc as int * 10 + d > usize::MAX as int);
                        assert(false);
                    }
                }
                return None;
            },
        }
        j += 1;
    }
    proof {
        assert(line@.subrange(16, line@.len() as int) =~= line@.skip(16));
    }
    Some(acc)
}

/// Law: a frame announces exactly the length of the payload it carries,
/// and the digits of that announcement read back as the same length.
pub proof fn lemma_frame_length(payload: Seq<u8>)
    ensures
        spec_frame(payload).len() == spec_header(payload.len()).len() + payload.len(),
        is_digit_bytes(dec_digits(payload.len())),
        digits_value(dec_digits(payload.len())) == payload.len(),
{
    lemma_dec_digits_read_back(payload.len());
}

proof fn lemma_dec_digits_read_back(n: nat)
    ensures
        is_digit_bytes(dec_digits(n)),
        digits_value(dec_digits(n)) == n,
    decreases n,
{
    if n < 10 {
        let s = dec_digits(n);
        assert(s == seq![(n + 48) as u8]);
        assert(s.drop_last() =~= Seq::<u8>::empty());
        assert(((n + 48) as u8) as int == n + 48);
        assert(s.last() == (n + 48) as u8);
        assert(digits_value(s) == digits_value(s.drop_last()) * 10 + (s.last() - 48));
    } else {
        lemma_dec_digits_read_back(n / 10);
        let s = dec_digits(n);
        assert(s == dec_digits(n / 10).push((n % 10 + 48) as u8));
        assert(s.drop_last() =~= dec_digits(n / 10));
        assert(s.last() == (n % 10 + 48) as u8);
        assert(digits_value(s) == digits_value(dec_digits(n / 10)) * 10 + (n % 10));
        assert(forall|i: int| 0 <= i < s.len() - 1 ==> 48 <= #[trigger] s[i] <= 57) by {
            assert(forall|i: int|
                0 <= i < dec_digits(n / 10).len() ==> 48 <= #[trigger] dec_digits(n / 10)[i]
                    <= 57);
            assert(forall|i: int| 0 <= i < s.len() - 1 ==> s[i] == dec_digits(n / 10)[i]);
        }
    }
}

} // verus!
