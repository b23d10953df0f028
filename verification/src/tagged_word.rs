//! Machine words that are tagged valid or invalid.

use vstd::prelude::*;
use vstd::std_specs::convert::FromSpecImpl;

verus! {

/// The word that an unbounded integer becomes in a machine register: its
/// residue modulo two to the power of the word width.
pub open spec fn wrap(i: int) -> usize {
    (i % (usize::MAX as int + 1)) as usize
}

/// The number of bytes in a machine word.
pub open spec fn word_bytes() -> int {
    usize::BITS as int / 8
}

/// A word that already fits in a register is its own residue.
pub proof fn lemma_wrap_fits(i: int)
    requires
        0 <= i <= usize::MAX,
    ensures
        wrap(i) == i,
{
    vstd::arithmetic::div_mod::lemma_small_mod(i as nat, (usize::MAX as int + 1) as nat);
}

/// Adding a multiple of the modulus does not change the residue.
pub proof fn lemma_wrap_period(i: int, k: int)
    ensures
        wrap(i + k * (usize::MAX as int + 1)) == wrap(i),
{
    vstd::arithmetic::div_mod::lemma_mod_multiples_vanish(k, i, usize::MAX as int + 1);
}

/// The word of an integer that is too wide for a register.
pub fn wrap_word(i: i128) -> (w: usize)
    requires
        -0x1_0000_0000_0000_0000 <= i < 0x4_0000_0000_0000_0000,
    ensures
        w == wrap(i as int),
{
    let modulus: u128 = usize::MAX as u128 + 1;
    let lifted: u128 = (i + 0x1_0000_0000_0000_0000i128) as u128;
    proof {
        if modulus == 0x1_0000_0000 {
            lemma_wrap_period(i as int, 0x1_0000_0000);
        } else {
            lemma_wrap_period(i as int, 1);
        }
    }
    (lifted % modulus) as usize
}

/// A machine word that is tagged with whether it is valid or not.
#[derive(Clone, Copy, Debug, PartialEq, Eq, Structural, PartialOrd, Ord, Hash)]
pub enum TaggedWord {
    /// A valid word.
    Valid(usize),
    /// An invalid word.
    Invalid,
}

impl Default for TaggedWord {
    fn default() -> (w: TaggedWord)
        ensures
            w == TaggedWord::Invalid,
    {
        TaggedWord::Invalid
    }
}

impl TaggedWord {
    /// Construct a new, valid `TaggedWord`.
    pub fn valid(word: usize) -> (w: TaggedWord)
        ensures
            w == TaggedWord::Valid(word),
    {
        TaggedWord::Valid(word)
    }

    /// Construct a new, invalid `TaggedWord`.
    pub fn invalid() -> (w: TaggedWord)
        ensures
            w == TaggedWord::Invalid,
    {
        TaggedWord::Invalid
    }

    /// Is this tagged word valid?
    pub fn is_valid(&self) -> (b: bool)
        ensures
            b == (*self is Valid),
    {
        match *self {
            TaggedWord::Valid(_) => true,
            TaggedWord::Invalid => false,
        }
    }

    /// Is this tagged word invalid?
    pub fn is_invalid(&self) -> (b: bool)
        ensures
            b == (*self is Invalid),
    {
        !self.is_valid()
    }

    /// If we treat this word as a pointer, is it pointing to something that is
    /// aligned on a word boundary?
    ///
    /// Invalid words are never considered word aligned.
    pub fn is_word_aligned(&self) -> (b: bool)
        ensures
            b == (*self matches TaggedWord::Valid(w) && w as int % word_bytes() == 0),
    {
        match *self {
            TaggedWord::Valid(w) => {
                let size: usize = core::mem::size_of::<usize>();
                proof {
                    broadcast use vstd::layout::layout_of_primitives;

                    assert(size == 4 || size == 8);
                    assert(w & 3 == 0 <==> w % 4 == 0) by (bit_vector);
                    assert(w & 7 == 0 <==> w % 8 == 0) by (bit_vector);
                }
                w & (size - 1) == 0
            },
            TaggedWord::Invalid => false,
        }
    }

    /// Invoke `f` on the inner word if it is valid and return a new, valid
    /// `TaggedWord` of the result. If the inner word is invalid, return an
    /// invalid `TaggedWord` without calling `f`.
    pub fn map<F>(self, mut f: F) -> (w: TaggedWord) where F: FnMut(usize) -> usize
        requires
            self matches TaggedWord::Valid(x) ==> call_requires(f, (x,)),
        ensures
            match self {
                TaggedWord::Valid(x) => w matches TaggedWord::Valid(y) && call_ensures(f, (x,), y),
                TaggedWord::Invalid => w == TaggedWord::Invalid,
            },
    {
        match self {
            TaggedWord::Valid(x) => TaggedWord::Valid(f(x)),
            TaggedWord::Invalid => TaggedWord::Invalid,
        }
    }

    /// Invoke `f` on the inner word if it is valid and return the result. If
    /// the word is invalid, return the given default value without calling
    /// `f`.
    pub fn map_or<T, F>(self, default: T, mut f: F) -> (r: T) where F: FnMut(usize) -> T
        requires
            self matches TaggedWord::Valid(x) ==> call_requires(f, (x,)),
        ensures
            match self {
                TaggedWord::Valid(x) => call_ensures(f, (x,), r),
                TaggedWord::Invalid => r == default,
            },
    {
        match self {
            TaggedWord::Valid(x) => f(x),
            TaggedWord::Invalid => default,
        }
    }

    /// If the inner word is valid, invoke `f` on it and return the result. If
    /// the inner word is invalid, return another invalid word without calling
    /// `f`.
    pub fn and_then<F>(self, mut f: F) -> (w: TaggedWord) where F: FnMut(usize) -> TaggedWord
        requires
            self matches TaggedWord::Valid(x) ==> call_requires(f, (x,)),
        ensures
            match self {
                TaggedWord::Valid(x) => call_ensures(f, (x,), w),
                TaggedWord::Invalid => w == TaggedWord::Invalid,
            },
    {
        match self {
            TaggedWord::Valid(x) => f(x),
            TaggedWord::Invalid => TaggedWord::Invalid,
        }
    }

    /// The tagged word that a fallible read stands for: its word, or invalid
    /// where it failed.
    pub open spec fn collapse<E>(r: Result<usize, E>) -> TaggedWord {
        match r {
            Ok(word) => TaggedWord::Valid(word),
            Err(_) => TaggedWord::Invalid,
        }
    }

    /// The inner word if it is valid, the given default otherwise.
    pub fn unwrap_or(self, default: usize) -> (word: usize)
        ensures
            word == match self {
                TaggedWord::Valid(x) => x,
                TaggedWord::Invalid => default,
            },
    {
        match self {
            TaggedWord::Valid(x) => x,
            TaggedWord::Invalid => default,
        }
    }
}

/// A fallible read becomes a tagged word: a failure collapses to invalid.
impl<E> From<Result<usize, E>> for TaggedWord {
    fn from(r: Result<usize, E>) -> (w: TaggedWord)
        ensures
            w == TaggedWord::collapse(r),
    {
        match r {
            Ok(word) => TaggedWord::Valid(word),
            Err(_) => TaggedWord::Invalid,
        }
    }
}

impl<E> FromSpecImpl<Result<usize, E>> for TaggedWord {
    open spec fn obeys_from_spec() -> bool {
        true
    }

    open spec fn from_spec(r: Result<usize, E>) -> TaggedWord {
        TaggedWord::collapse(r)
    }
}

} // verus!
