//! Words that pack an aligned node address with a lock bit in bit 0.
//!
//! Nodes sit at even addresses, so the low bit of a word is free to say
//! whether the list or lock behind the word is held; the rest of the word is
//! the address of the first node, `0` standing for no node.
use vstd::prelude::*;

verus! {

pub const LOCKED_BIT: usize = 1;

pub const PTR_MASK: usize = !1usize;

/// The lock bit of a word.
pub open spec fn flag_of(s: usize) -> bool {
    s % 2 == 1
}

/// The address part of a word.
pub open spec fn addr_of(s: usize) -> usize {
    (s - s % 2) as usize
}

/// A node address that can share a word with the lock bit.
pub open spec fn aligned(a: usize) -> bool {
    a % 2 == 0
}

/// The word's bit operations in terms of its arithmetic.
pub proof fn lemma_tag_bits(s: usize)
    by (bit_vector)
    ensures
        (s & 1usize == 1usize) == (s % 2 == 1),
        (s & 1usize) == s % 2,
        (s & !1usize) == s - s % 2,
        s % 2 == 0 ==> (s | 1usize) == s + 1,
        s % 2 == 1 ==> (s | 1usize) == s,
{
}

/// Or-ing the low bit of a word into an even address adds it.
pub proof fn lemma_or_low_bit(w: usize, a: usize)
    by (bit_vector)
    requires
        a % 2 == 0,
    ensures
        ((w & 1usize) | a) == a + (w & 1usize),
{
}

/// The address held in a word.
pub fn get_ptr(word: usize) -> (r: usize)
    ensures
        r == addr_of(word),
        aligned(r),
{
    proof {
        lemma_tag_bits(word);
    }
    word & PTR_MASK
}

/// The lock bit of a word.
pub fn get_flag(word: usize) -> (r: bool)
    ensures
        r == flag_of(word),
{
    proof {
        lemma_tag_bits(word);
    }
    (word & LOCKED_BIT) == LOCKED_BIT
}

/// The word for address `addr` with the lock bit `locked`.
pub open spec fn tag(addr: usize, locked: bool) -> usize {
    if locked { (addr + 1) as usize } else { addr }
}

/// Packing an aligned address with a lock bit keeps both apart.
pub proof fn lemma_tag_round_trip(addr: usize, locked: bool)
    requires
        aligned(addr),
        addr < usize::MAX,
    ensures
        addr_of(tag(addr, locked)) == addr,
        flag_of(tag(addr, locked)) == locked,
{
}

/// The word with the lock bit set.
pub fn with_lock(word: usize) -> (r: usize)
    ensures
        r == tag(addr_of(word), true),
        addr_of(r) == addr_of(word),
        flag_of(r),
{
    proof {
        lemma_tag_bits(word);
    }
    word | LOCKED_BIT
}

/// The word with the lock bit cleared.
pub fn without_lock(word: usize) -> (r: usize)
    ensures
        r == addr_of(word),
        addr_of(r) == addr_of(word),
        !flag_of(r),
{
    proof {
        lemma_tag_bits(word);
    }
    word & PTR_MASK
}

/// Whether the word holds no node address.
pub fn is_null(word: usize) -> (r: bool)
    ensures
        r == (addr_of(word) == 0),
{
    get_ptr(word) == 0
}

/// The address held in a word, `None` for no node.
pub fn as_non_null(word: usize) -> (r: Option<usize>)
    ensures
        r == (if addr_of(word) == 0 { None } else { Some(addr_of(word)) }),
{
    let p = get_ptr(word);
    if p == 0 {
        None
    } else {
        Some(p)
    }
}

/// The word that keeps the lock bit of `word` and holds `ptr` as its
/// address, `None` standing for no node.
pub fn with_ptr(word: usize, ptr: Option<usize>) -> (r: usize)
    requires
        ptr is Some ==> aligned(ptr.unwrap()) && ptr.unwrap() < usize::MAX,
    ensures
        r == tag(
            match ptr {
                Some(a) => a,
                None => 0,
            },
            flag_of(word),
        ),
        flag_of(r) == flag_of(word),
        addr_of(r) == match ptr {
            Some(a) => a,
            None => 0usize,
        },
{
    proof {
        lemma_tag_bits(word);
    }
    match ptr {
        Some(a) => {
            proof {
                lemma_tag_bits(a);
                lemma_tag_round_trip(a, flag_of(word));
                lemma_or_low_bit(word, a);
            }
            (word & LOCKED_BIT) | a
        },
        None => {
            proof {
                lemma_tag_round_trip(0, flag_of(word));
            }
            word & LOCKED_BIT
        },
    }
}

/// The word of a node address with the lock bit clear.
pub fn ptr_as_word(ptr: Option<usize>) -> (r: usize)
    requires
        ptr is Some ==> aligned(ptr.unwrap()) && ptr.unwrap() < usize::MAX,
    ensures
        !flag_of(r),
        addr_of(r) == match ptr {
            Some(a) => a,
            None => 0usize,
        },
{
    with_ptr(0, ptr)
}

} // verus!
