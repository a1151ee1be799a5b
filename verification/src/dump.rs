//! Dumps of pixel words for the hardware toolchain: raw little-endian bytes,
//! and a hex listing.

use vstd::prelude::*;
use vstd::arithmetic::div_mod::lemma_fundamental_div_mod;
use vstd::arithmetic::div_mod::lemma_fundamental_div_mod_converse;

verus! {

/// The upper-case hex digit for a number below 16, in ASCII.
pub open spec fn hex_char(n: int) -> u8 {
    if n < 10 {
        (0x30 + n) as u8
    } else {
        (0x41 + n - 10) as u8
    }
}

/// The `d`-th hex digit of a word, counted from the most significant one.
pub open spec fn nibble(word: u16, d: int) -> int {
    if d == 0 {
        word as int / 0x1000
    } else if d == 1 {
        (word as int / 0x100) % 16
    } else if d == 2 {
        (word as int / 0x10) % 16
    } else {
        word as int % 16
    }
}

/// The words of equally long blocks, one block after the other.
pub open spec fn flat(blocks: Seq<Seq<u16>>, block_len: int) -> Seq<u16> {
    Seq::new((blocks.len() * block_len) as nat, |k: int| blocks[k / block_len][k % block_len])
}

/// The binary dump: for each word its low byte, then its high byte.
pub open spec fn bin_dump(words: Seq<u16>) -> Seq<u8> {
    Seq::new(
        2 * words.len(),
        |i: int|
            if i % 2 == 0 {
                (words[i / 2] % 256) as u8
            } else {
                (words[i / 2] / 256) as u8
            },
    )
}

/// Byte `i` of the hex listing.
pub open spec fn hex_dump_byte(words: Seq<u16>, block_len: int, separator: u8, i: int) -> u8 {
    if i == 0 {
        0x40
    } else if i == 1 {
        0x30
    } else if i == 2 {
        0x0a
    } else {
        let stride = 5 * block_len + 1;
        let block = (i - 3) / stride;
        let at = (i - 3) % stride;
        if at == 5 * block_len {
            0x0a
        } else if at % 5 == 4 {
            separator
        } else {
            hex_char(nibble(words[block * block_len + at / 5], at % 5))
        }
    }
}

/// The hex listing of words that come in blocks of `block_len`: the line
/// `@0`, then for each block its words, each as four upper-case hex digits
/// followed by `separator`, and a line feed after the block.
pub open spec fn hex_dump(words: Seq<u16>, block_len: int, separator: u8) -> Seq<u8> {
    Seq::new(
        (3 + (words.len() / (block_len as nat)) * (5 * block_len + 1)) as nat,
        |i: int| hex_dump_byte(words, block_len, separator, i),
    )
}

/// The binary dump of `words`.
pub fn bin_dump_bytes(words: &Vec<u16>) -> (bytes: Vec<u8>)
    requires
        2 * words@.len() <= usize::MAX,
    ensures
        bytes@ == bin_dump(words@),
{
    let n: usize = words.len();
    let mut bytes: Vec<u8> = Vec::new();
    let mut k: usize = 0;
    while k < n
        invariant
            n == words@.len(),
            k <= n,
            bytes@.len() == 2 * k,
            forall|i: int| 0 <= i < 2 * k ==> bytes@[i] == bin_dump(words@)[i],
        decreases n - k,
    {
        let word: u16 = words[k];
        bytes.push((word % 256) as u8);
        bytes.push((word / 256) as u8);
        k += 1;
    }
    assert(bytes@ =~= bin_dump(words@));
    bytes
}

fn hex_digit(n: u16) -> (c: u8)
    requires
        n < 16,
    ensures
        c == hex_char(n as int),
{
    if n < 10 {
        (0x30 + n) as u8
    } else {
        (0x41 + n - 10) as u8
    }
}

proof fn lemma_hex_position(block: int, k: int, d: int, block_len: int)
    requires
        0 <= block,
        0 <= k < block_len,
        0 <= d < 5,
    ensures
        ({
            let stride = 5 * block_len + 1;
            let j = block * stride + 5 * k + d;
            &&& j / stride == block
            &&& j % stride == 5 * k + d
            &&& (5 * k + d) / 5 == k
            &&& (5 * k + d) % 5 == d
            &&& 5 * k + d < 5 * block_len
        }),
{
    let stride = 5 * block_len + 1;
    lemma_fundamental_div_mod_converse(block * stride + 5 * k + d, stride, block, 5 * k + d);
}

proof fn lemma_hex_block_end(block: int, block_len: int)
    requires
        0 <= block,
        0 < block_len,
    ensures
        ({
            let stride = 5 * block_len + 1;
            let j = block * stride + 5 * block_len;
            &&& j / stride == block
            &&& j % stride == 5 * block_len
        }),
{
    let stride = 5 * block_len + 1;
    lemma_fundamental_div_mod_converse(block * stride + 5 * block_len, stride, block, 5 * block_len);
}

/// The hex listing of `words`, which come in blocks of `block_len`.
pub fn hex_dump_text(words: &Vec<u16>, block_len: usize, separator: u8) -> (text: Vec<u8>)
    requires
        block_len > 0,
        words@.len() % (block_len as nat) == 0,
        3 + 6 * words@.len() <= usize::MAX,
    ensures
        text@ == hex_dump(words@, block_len as int, separator),
{
    let blocks: usize = words.len() / block_len;
    let ghost stride = 5 * block_len + 1;
    proof {
        lemma_fundamental_div_mod(words@.len() as int, block_len as int);
        assert(words@.len() == block_len * blocks);
    }
    let mut text: Vec<u8> = Vec::new();
    text.push(0x40);
    text.push(0x30);
    text.push(0x0a);
    let mut b: usize = 0;
    while b < blocks
        invariant
            block_len > 0,
            words@.len() == block_len * blocks,
            3 + 6 * words@.len() <= usize::MAX,
            stride == 5 * block_len + 1,
            b <= blocks,
            text@.len() == 3 + b * stride,
            forall|i: int|
                0 <= i < text@.len() ==> text@[i] == hex_dump_byte(
                    words@,
                    block_len as int,
                    separator,
                    i,
                ),
        decreases blocks - b,
    {
        let mut k: usize = 0;
        while k < block_len
            invariant
                block_len > 0,
                words@.len() == block_len * blocks,
                3 + 6 * words@.len() <= usize::MAX,
                stride == 5 * block_len + 1,
                b < blocks,
                k <= block_len,
                text@.len() == 3 + b * stride + 5 * k,
                forall|i: int|
                    0 <= i < text@.len() ==> text@[i] == hex_dump_byte(
                        words@,
                        block_len as int,
                        separator,
                        i,
                    ),
            decreases block_len - k,
        {
            proof {
                assert(b * block_len + k < block_len * blocks) by (nonlinear_arith)
                    requires
                        b < blocks,
                        k < block_len,
                ;
                assert(b * stride + 5 * k + 5 <= 6 * (block_len * blocks)) by (nonlinear_arith)
                    requires
                        b < blocks,
                        k < block_len,
                        stride == 5 * block_len + 1,
                ;
                lemma_hex_position(b as int, k as int, 0, block_len as int);
                lemma_hex_position(b as int, k as int, 1, block_len as int);
                lemma_hex_position(b as int, k as int, 2, block_len as int);
                lemma_hex_position(b as int, k as int, 3, block_len as int);
                lemma_hex_position(b as int, k as int, 4, block_len as int);
            }
            let word: u16 = words[b * block_len + k];
            text.push(hex_digit(word / 0x1000));
            text.push(hex_digit((word / 0x100) % 16));
            text.push(hex_digit((word / 0x10) % 16));
            text.push(hex_digit(word % 16));
            text.push(separator);
            k += 1;
        }
        proof {
            lemma_hex_block_end(b as int, block_len as int);
            assert(b * stride + stride <= 6 * (block_len * blocks)) by (nonlinear_arith)
                requires
                    b < blocks,
                    stride == 5 * block_len + 1,
                    block_len > 0,
            ;
            assert((b + 1) * stride == b * stride + stride) by (nonlinear_arith);
        }
        text.push(0x0a);
        b += 1;
    }
    assert(text@ =~= hex_dump(words@, block_len as int, separator));
    text
}

} // verus!
