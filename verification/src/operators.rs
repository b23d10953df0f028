//! The arithmetic, bitwise and shift operators of [`TaggedWord`].
//!
//! Each operator is total. Where either operand is invalid the result is
//! invalid. Where both are valid the machine operation runs at the width of a
//! word and wraps around; a division or remainder by zero, which has no word
//! for a result, gives the invalid word. The right operand is a tagged word, a
//! plain word, which counts as valid, or the outcome of a fallible read, which
//! counts as invalid where the read failed.

use crate::tagged_word::{lemma_wrap_fits, lemma_wrap_period, wrap, TaggedWord};
use vstd::prelude::*;
use vstd::std_specs::ops::AddSpecImpl;
use vstd::std_specs::ops::SubSpecImpl;
use vstd::std_specs::ops::MulSpecImpl;
use vstd::std_specs::ops::DivSpecImpl;
use vstd::std_specs::ops::RemSpecImpl;
use vstd::std_specs::ops::BitAndSpecImpl;
use vstd::std_specs::ops::BitOrSpecImpl;
use vstd::std_specs::ops::BitXorSpecImpl;
use vstd::std_specs::ops::ShlSpecImpl;
use vstd::std_specs::ops::ShrSpecImpl;

verus! {

/// The distance of a shift by `amount`: the amount modulo the width of a word.
pub open spec fn shift_distance(amount: usize) -> u32 {
    (amount as int % usize::BITS as int) as u32
}

/// The distance of a shift by `amount`.
pub fn shift_amount(amount: usize) -> (distance: u32)
    ensures
        distance == shift_distance(amount),
        distance < usize::BITS,
{
    let bits: usize = usize::BITS as usize;
    (amount % bits) as u32
}

/// A wrapping addition of two words is the residue of their sum.
pub proof fn lemma_wrapping_add(x: usize, y: usize)
    ensures
        vstd::wrapping::usize_specs::wrapping_add(x, y) == wrap(x + y),
{
    if x + y > usize::MAX {
        lemma_wrap_period(x + y - (usize::MAX as int + 1), 1);
        lemma_wrap_fits(x + y - (usize::MAX as int + 1));
    } else {
        lemma_wrap_fits(x + y);
    }
}

/// A wrapping subtraction of two words is the residue of their difference.
pub proof fn lemma_wrapping_sub(x: usize, y: usize)
    ensures
        vstd::wrapping::usize_specs::wrapping_sub(x, y) == wrap(x - y),
{
    if x - y < 0 {
        lemma_wrap_period(x - y + (usize::MAX as int + 1), -1);
        lemma_wrap_fits(x - y + (usize::MAX as int + 1));
    } else {
        lemma_wrap_fits(x - y);
    }
}

/// A wrapping multiplication of two words is the residue of their product.
pub proof fn lemma_wrapping_mul(x: usize, y: usize)
    ensures
        vstd::wrapping::usize_specs::wrapping_mul(x, y) == wrap(x * y),
{
    assert(x as nat * y as nat == x * y) by (nonlinear_arith);
    assert(0 <= x * y) by (nonlinear_arith);
}

impl TaggedWord {
    /// The sum of two tagged words.
    pub open spec fn sum(self, rhs: TaggedWord) -> TaggedWord {
        match (self, rhs) {
            (TaggedWord::Valid(x), TaggedWord::Valid(y)) => TaggedWord::Valid(wrap(x + y)),
            _ => TaggedWord::Invalid,
        }
    }

    /// The difference of two tagged words.
    pub open spec fn difference(self, rhs: TaggedWord) -> TaggedWord {
        match (self, rhs) {
            (TaggedWord::Valid(x), TaggedWord::Valid(y)) => TaggedWord::Valid(wrap(x - y)),
            _ => TaggedWord::Invalid,
        }
    }

    /// The product of two tagged words.
    pub open spec fn product(self, rhs: TaggedWord) -> TaggedWord {
        match (self, rhs) {
            (TaggedWord::Valid(x), TaggedWord::Valid(y)) => TaggedWord::Valid(wrap(x * y)),
            _ => TaggedWord::Invalid,
        }
    }

    /// The quotient of two tagged words; invalid where the divisor is zero.
    pub open spec fn quotient(self, rhs: TaggedWord) -> TaggedWord {
        match (self, rhs) {
            (TaggedWord::Valid(x), TaggedWord::Valid(y)) => if y == 0 {
                TaggedWord::Invalid
            } else {
                TaggedWord::Valid(x / y)
            },
            _ => TaggedWord::Invalid,
        }
    }

    /// The remainder of two tagged words; invalid where the divisor is zero.
    pub open spec fn remainder(self, rhs: TaggedWord) -> TaggedWord {
        match (self, rhs) {
            (TaggedWord::Valid(x), TaggedWord::Valid(y)) => if y == 0 {
                TaggedWord::Invalid
            } else {
                TaggedWord::Valid(x % y)
            },
            _ => TaggedWord::Invalid,
        }
    }

    /// The bitwise and of two tagged words.
    pub open spec fn bit_and(self, rhs: TaggedWord) -> TaggedWord {
        match (self, rhs) {
            (TaggedWord::Valid(x), TaggedWord::Valid(y)) => TaggedWord::Valid(x & y),
            _ => TaggedWord::Invalid,
        }
    }

    /// The bitwise or of two tagged words.
    pub open spec fn bit_or(self, rhs: TaggedWord) -> TaggedWord {
        match (self, rhs) {
            (TaggedWord::Valid(x), TaggedWord::Valid(y)) => TaggedWord::Valid(x | y),
            _ => TaggedWord::Invalid,
        }
    }

    /// The bitwise exclusive or of two tagged words.
    pub open spec fn bit_xor(self, rhs: TaggedWord) -> TaggedWord {
        match (self, rhs) {
            (TaggedWord::Valid(x), TaggedWord::Valid(y)) => TaggedWord::Valid(x ^ y),
            _ => TaggedWord::Invalid,
        }
    }

    /// A tagged word shifted left by another; bits that leave the word are
    /// lost.
    pub open spec fn shifted_left(self, rhs: TaggedWord) -> TaggedWord {
        match (self, rhs) {
            (TaggedWord::Valid(x), TaggedWord::Valid(y)) => TaggedWord::Valid(
                x << shift_distance(y),
            ),
            _ => TaggedWord::Invalid,
        }
    }

    /// A tagged word shifted right by another.
    pub open spec fn shifted_right(self, rhs: TaggedWord) -> TaggedWord {
        match (self, rhs) {
            (TaggedWord::Valid(x), TaggedWord::Valid(y)) => TaggedWord::Valid(
                x >> shift_distance(y),
            ),
            _ => TaggedWord::Invalid,
        }
    }
}

impl core::ops::Add<TaggedWord> for TaggedWord {
    type Output = TaggedWord;

    fn add(self, rhs: TaggedWord) -> (out: TaggedWord)
        ensures
            out == self.sum(rhs),
    {
        match (self, rhs) {
            (TaggedWord::Valid(x), TaggedWord::Valid(y)) => {
                proof {
                    lemma_wrapping_add(x, y);
                }
                TaggedWord::Valid(x.wrapping_add(y))
            },
            _ => TaggedWord::Invalid,
        }
    }
}

impl AddSpecImpl<TaggedWord> for TaggedWord {
    open spec fn obeys_add_spec() -> bool {
        true
    }

    open spec fn add_req(self, rhs: TaggedWord) -> bool {
        true
    }

    open spec fn add_spec(self, rhs: TaggedWord) -> TaggedWord {
        self.sum(rhs)
    }
}

impl core::ops::Add<usize> for TaggedWord {
    type Output = TaggedWord;

    fn add(self, rhs: usize) -> (out: TaggedWord)
        ensures
            out == self.sum(TaggedWord::Valid(rhs)),
    {
        core::ops::Add::add(self, TaggedWord::Valid(rhs))
    }
}

impl AddSpecImpl<usize> for TaggedWord {
    open spec fn obeys_add_spec() -> bool {
        true
    }

    open spec fn add_req(self, rhs: usize) -> bool {
        true
    }

    open spec fn add_spec(self, rhs: usize) -> TaggedWord {
        self.sum(TaggedWord::Valid(rhs))
    }
}

impl<E> core::ops::Add<Result<usize, E>> for TaggedWord {
    type Output = TaggedWord;

    fn add(self, rhs: Result<usize, E>) -> (out: TaggedWord)
        ensures
            out == self.sum(TaggedWord::collapse(rhs)),
    {
        core::ops::Add::add(self, TaggedWord::from(rhs))
    }
}

impl<E> AddSpecImpl<Result<usize, E>> for TaggedWord {
    open spec fn obeys_add_spec() -> bool {
        true
    }

    open spec fn add_req(self, rhs: Result<usize, E>) -> bool {
        true
    }

    open spec fn add_spec(self, rhs: Result<usize, E>) -> TaggedWord {
        self.sum(TaggedWord::collapse(rhs))
    }
}

impl core::ops::AddAssign<TaggedWord> for TaggedWord {
    fn add_assign(&mut self, rhs: TaggedWord)
        ensures
            *final(self) == old(self).sum(rhs),
    {
        *self = core::ops::Add::add(*self, rhs);
    }
}

impl core::ops::AddAssign<usize> for TaggedWord {
    fn add_assign(&mut self, rhs: usize)
        ensures
            *final(self) == old(self).sum(TaggedWord::Valid(rhs)),
    {
        *self = core::ops::Add::add(*self, TaggedWord::Valid(rhs));
    }
}

impl<E> core::ops::AddAssign<Result<usize, E>> for TaggedWord {
    fn add_assign(&mut self, rhs: Result<usize, E>)
        ensures
            *final(self) == old(self).sum(TaggedWord::collapse(rhs)),
    {
        *self = core::ops::Add::add(*self, TaggedWord::from(rhs));
    }
}

impl core::ops::Sub<TaggedWord> for TaggedWord {
    type Output = TaggedWord;

    fn sub(self, rhs: TaggedWord) -> (out: TaggedWord)
        ensures
            out == self.difference(rhs),
    {
        match (self, rhs) {
            (TaggedWord::Valid(x), TaggedWord::Valid(y)) => {
                proof {
                    lemma_wrapping_sub(x, y);
                }
                TaggedWord::Valid(x.wrapping_sub(y))
            },
            _ => TaggedWord::Invalid,
        }
    }
}

impl SubSpecImpl<TaggedWord> for TaggedWord {
    open spec fn obeys_sub_spec() -> bool {
        true
    }

    open spec fn sub_req(self, rhs: TaggedWord) -> bool {
        true
    }

    open spec fn sub_spec(self, rhs: TaggedWord) -> TaggedWord {
        self.difference(rhs)
    }
}

impl core::ops::Sub<usize> for TaggedWord {
    type Output = TaggedWord;

    fn sub(self, rhs: usize) -> (out: TaggedWord)
        ensures
            out == self.difference(TaggedWord::Valid(rhs)),
    {
        core::ops::Sub::sub(self, TaggedWord::Valid(rhs))
    }
}

impl SubSpecImpl<usize> for TaggedWord {
    open spec fn obeys_sub_spec() -> bool {
        true
    }

    open spec fn sub_req(self, rhs: usize) -> bool {
        true
    }

    open spec fn sub_spec(self, rhs: usize) -> TaggedWord {
        self.difference(TaggedWord::Valid(rhs))
    }
}

impl<E> core::ops::Sub<Result<usize, E>> for TaggedWord {
    type Output = TaggedWord;

    fn sub(self, rhs: Result<usize, E>) -> (out: TaggedWord)
        ensures
            out == self.difference(TaggedWord::collapse(rhs)),
    {
        core::ops::Sub::sub(self, TaggedWord::from(rhs))
    }
}

impl<E> SubSpecImpl<Result<usize, E>> for TaggedWord {
    open spec fn obeys_sub_spec() -> bool {
        true
    }

    open spec fn sub_req(self, rhs: Result<usize, E>) -> bool {
        true
    }

    open spec fn sub_spec(self, rhs: Result<usize, E>) -> TaggedWord {
        self.difference(TaggedWord::collapse(rhs))
    }
}

impl core::ops::SubAssign<TaggedWord> for TaggedWord {
    fn sub_assign(&mut self, rhs: TaggedWord)
        ensures
            *final(self) == old(self).difference(rhs),
    {
        *self = core::ops::Sub::sub(*self, rhs);
    }
}

impl core::ops::SubAssign<usize> for TaggedWord {
    fn sub_assign(&mut self, rhs: usize)
        ensures
            *final(self) == old(self).difference(TaggedWord::Valid(rhs)),
    {
        *self = core::ops::Sub::sub(*self, TaggedWord::Valid(rhs));
    }
}

impl<E> core::ops::SubAssign<Result<usize, E>> for TaggedWord {
    fn sub_assign(&mut self, rhs: Result<usize, E>)
        ensures
            *final(self) == old(self).difference(TaggedWord::collapse(rhs)),
    {
        *self = core::ops::Sub::sub(*self, TaggedWord::from(rhs));
    }
}

impl core::ops::Mul<TaggedWord> for TaggedWord {
    type Output = TaggedWord;

    fn mul(self, rhs: TaggedWord) -> (out: TaggedWord)
        ensures
            out == self.product(rhs),
    {
        match (self, rhs) {
            (TaggedWord::Valid(x), TaggedWord::Valid(y)) => {
                proof {
                    lemma_wrapping_mul(x, y);
                }
                TaggedWord::Valid(x.wrapping_mul(y))
            },
            _ => TaggedWord::Invalid,
        }
    }
}

impl MulSpecImpl<TaggedWord> for TaggedWord {
    open spec fn obeys_mul_spec() -> bool {
        true
    }

    open spec fn mul_req(self, rhs: TaggedWord) -> bool {
        true
    }

    open spec fn mul_spec(self, rhs: TaggedWord) -> TaggedWord {
        self.product(rhs)
    }
}

impl core::ops::Mul<usize> for TaggedWord {
    type Output = TaggedWord;

    fn mul(self, rhs: usize) -> (out: TaggedWord)
        ensures
            out == self.product(TaggedWord::Valid(rhs)),
    {
        core::ops::Mul::mul(self, TaggedWord::Valid(rhs))
    }
}

impl MulSpecImpl<usize> for TaggedWord {
    open spec fn obeys_mul_spec() -> bool {
        true
    }

    open spec fn mul_req(self, rhs: usize) -> bool {
        true
    }

    open spec fn mul_spec(self, rhs: usize) -> TaggedWord {
        self.product(TaggedWord::Valid(rhs))
    }
}

impl<E> core::ops::Mul<Result<usize, E>> for TaggedWord {
    type Output = TaggedWord;

    fn mul(self, rhs: Result<usize, E>) -> (out: TaggedWord)
        ensures
            out == self.product(TaggedWord::collapse(rhs)),
    {
        core::ops::Mul::mul(self, TaggedWord::from(rhs))
    }
}

impl<E> MulSpecImpl<Result<usize, E>> for TaggedWord {
    open spec fn obeys_mul_spec() -> bool {
        true
    }

    open spec fn mul_req(self, rhs: Result<usize, E>) -> bool {
        true
    }

    open spec fn mul_spec(self, rhs: Result<usize, E>) -> TaggedWord {
        self.product(TaggedWord::collapse(rhs))
    }
}

impl core::ops::MulAssign<TaggedWord> for TaggedWord {
    fn mul_assign(&mut self, rhs: TaggedWord)
        ensures
            *final(self) == old(self).product(rhs),
    {
        *self = core::ops::Mul::mul(*self, rhs);
    }
}

impl core::ops::MulAssign<usize> for TaggedWord {
    fn mul_assign(&mut self, rhs: usize)
        ensures
            *final(self) == old(self).product(TaggedWord::Valid(rhs)),
    {
        *self = core::ops::Mul::mul(*self, TaggedWord::Valid(rhs));
    }
}

impl<E> core::ops::MulAssign<Result<usize, E>> for TaggedWord {
    fn mul_assign(&mut self, rhs: Result<usize, E>)
        ensures
            *final(self) == old(self).product(TaggedWord::collapse(rhs)),
    {
        *self = core::ops::Mul::mul(*self, TaggedWord::from(rhs));
    }
}

impl core::ops::Div<TaggedWord> for TaggedWord {
    type Output = TaggedWord;

    fn div(self, rhs: TaggedWord) -> (out: TaggedWord)
        ensures
            out == self.quotient(rhs),
    {
        match (self, rhs) {
            (TaggedWord::Valid(x), TaggedWord::Valid(y)) => {
                if y == 0 {
                    TaggedWord::Invalid
                } else {
                    TaggedWord::Valid(x / y)
                }
            },
            _ => TaggedWord::Invalid,
        }
    }
}

impl DivSpecImpl<TaggedWord> for TaggedWord {
    open spec fn obeys_div_spec() -> bool {
        true
    }

    open spec fn div_req(self, rhs: TaggedWord) -> bool {
        true
    }

    open spec fn div_spec(self, rhs: TaggedWord) -> TaggedWord {
        self.quotient(rhs)
    }
}

impl core::ops::Div<usize> for TaggedWord {
    type Output = TaggedWord;

    fn div(self, rhs: usize) -> (out: TaggedWord)
        ensures
            out == self.quotient(TaggedWord::Valid(rhs)),
    {
        core::ops::Div::div(self, TaggedWord::Valid(rhs))
    }
}

impl DivSpecImpl<usize> for TaggedWord {
    open spec fn obeys_div_spec() -> bool {
        true
    }

    open spec fn div_req(self, rhs: usize) -> bool {
        true
    }

    open spec fn div_spec(self, rhs: usize) -> TaggedWord {
        self.quotient(TaggedWord::Valid(rhs))
    }
}

impl<E> core::ops::Div<Result<usize, E>> for TaggedWord {
    type Output = TaggedWord;

    fn div(self, rhs: Result<usize, E>) -> (out: TaggedWord)
        ensures
            out == self.quotient(TaggedWord::collapse(rhs)),
    {
        core::ops::Div::div(self, TaggedWord::from(rhs))
    }
}

impl<E> DivSpecImpl<Result<usize, E>> for TaggedWord {
    open spec fn obeys_div_spec() -> bool {
        true
    }

    open spec fn div_req(self, rhs: Result<usize, E>) -> bool {
        true
    }

    open spec fn div_spec(self, rhs: Result<usize, E>) -> TaggedWord {
        self.quotient(TaggedWord::collapse(rhs))
    }
}

impl core::ops::DivAssign<TaggedWord> for TaggedWord {
    fn div_assign(&mut self, rhs: TaggedWord)
        ensures
            *final(self) == old(self).quotient(rhs),
    {
        *self = core::ops::Div::div(*self, rhs);
    }
}

impl core::ops::DivAssign<usize> for TaggedWord {
    fn div_assign(&mut self, rhs: usize)
        ensures
            *final(self) == old(self).quotient(TaggedWord::Valid(rhs)),
    {
        *self = core::ops::Div::div(*self, TaggedWord::Valid(rhs));
    }
}

impl<E> core::ops::DivAssign<Result<usize, E>> for TaggedWord {
    fn div_assign(&mut self, rhs: Result<usize, E>)
        ensures
            *final(self) == old(self).quotient(TaggedWord::collapse(rhs)),
    {
        *self = core::ops::Div::div(*self, TaggedWord::from(rhs));
    }
}

impl core::ops::Rem<TaggedWord> for TaggedWord {
    type Output = TaggedWord;

    fn rem(self, rhs: TaggedWord) -> (out: TaggedWord)
        ensures
            out == self.remainder(rhs),
    {
        match (self, rhs) {
            (TaggedWord::Valid(x), TaggedWord::Valid(y)) => {
                if y == 0 {
                    TaggedWord::Invalid
                } else {
                    TaggedWord::Valid(x % y)
                }
            },
            _ => TaggedWord::Invalid,
        }
    }
}

impl RemSpecImpl<TaggedWord> for TaggedWord {
    open spec fn obeys_rem_spec() -> bool {
        true
    }

    open spec fn rem_req(self, rhs: TaggedWord) -> bool {
        true
    }

    open spec fn rem_spec(self, rhs: TaggedWord) -> TaggedWord {
        self.remainder(rhs)
    }
}

impl core::ops::Rem<usize> for TaggedWord {
    type Output = TaggedWord;

    fn rem(self, rhs: usize) -> (out: TaggedWord)
        ensures
            out == self.remainder(TaggedWord::Valid(rhs)),
    {
        core::ops::Rem::rem(self, TaggedWord::Valid(rhs))
    }
}

impl RemSpecImpl<usize> for TaggedWord {
    open spec fn obeys_rem_spec() -> bool {
        true
    }

    open spec fn rem_req(self, rhs: usize) -> bool {
        true
    }

    open spec fn rem_spec(self, rhs: usize) -> TaggedWord {
        self.remainder(TaggedWord::Valid(rhs))
    }
}

impl<E> core::ops::Rem<Result<usize, E>> for TaggedWord {
    type Output = TaggedWord;

    fn rem(self, rhs: Result<usize, E>) -> (out: TaggedWord)
        ensures
            out == self.remainder(TaggedWord::collapse(rhs)),
    {
        core::ops::Rem::rem(self, TaggedWord::from(rhs))
    }
}

impl<E> RemSpecImpl<Result<usize, E>> for TaggedWord {
    open spec fn obeys_rem_spec() -> bool {
        true
    }

    open spec fn rem_req(self, rhs: Result<usize, E>) -> bool {
        true
    }

    open spec fn rem_spec(self, rhs: Result<usize, E>) -> TaggedWord {
        self.remainder(TaggedWord::collapse(rhs))
    }
}

impl core::ops::RemAssign<TaggedWord> for TaggedWord {
    fn rem_assign(&mut self, rhs: TaggedWord)
        ensures
            *final(self) == old(self).remainder(rhs),
    {
        *self = core::ops::Rem::rem(*self, rhs);
    }
}

impl core::ops::RemAssign<usize> for TaggedWord {
    fn rem_assign(&mut self, rhs: usize)
        ensures
            *final(self) == old(self).remainder(TaggedWord::Valid(rhs)),
    {
        *self = core::ops::Rem::rem(*self, TaggedWord::Valid(rhs));
    }
}

impl<E> core::ops::RemAssign<Result<usize, E>> for TaggedWord {
    fn rem_assign(&mut self, rhs: Result<usize, E>)
        ensures
            *final(self) == old(self).remainder(TaggedWord::collapse(rhs)),
    {
        *self = core::ops::Rem::rem(*self, TaggedWord::from(rhs));
    }
}

impl core::ops::BitAnd<TaggedWord> for TaggedWord {
    type Output = TaggedWord;

    fn bitand(self, rhs: TaggedWord) -> (out: TaggedWord)
        ensures
            out == self.bit_and(rhs),
    {
        match (self, rhs) {
            (TaggedWord::Valid(x), TaggedWord::Valid(y)) => {
                TaggedWord::Valid(x & y)
            },
            _ => TaggedWord::Invalid,
        }
    }
}

impl BitAndSpecImpl<TaggedWord> for TaggedWord {
    open spec fn obeys_bitand_spec() -> bool {
        true
    }

    open spec fn bitand_req(self, rhs: TaggedWord) -> bool {
        true
    }

    open spec fn bitand_spec(self, rhs: TaggedWord) -> TaggedWord {
        self.bit_and(rhs)
    }
}

impl core::ops::BitAnd<usize> for TaggedWord {
    type Output = TaggedWord;

    fn bitand(self, rhs: usize) -> (out: TaggedWord)
        ensures
            out == self.bit_and(TaggedWord::Valid(rhs)),
    {
        core::ops::BitAnd::bitand(self, TaggedWord::Valid(rhs))
    }
}

impl BitAndSpecImpl<usize> for TaggedWord {
    open spec fn obeys_bitand_spec() -> bool {
        true
    }

    open spec fn bitand_req(self, rhs: usize) -> bool {
        true
    }

    open spec fn bitand_spec(self, rhs: usize) -> TaggedWord {
        self.bit_and(TaggedWord::Valid(rhs))
    }
}

impl<E> core::ops::BitAnd<Result<usize, E>> for TaggedWord {
    type Output = TaggedWord;

    fn bitand(self, rhs: Result<usize, E>) -> (out: TaggedWord)
        ensures
            out == self.bit_and(TaggedWord::collapse(rhs)),
    {
        core::ops::BitAnd::bitand(self, TaggedWord::from(rhs))
    }
}

impl<E> BitAndSpecImpl<Result<usize, E>> for TaggedWord {
    open spec fn obeys_bitand_spec() -> bool {
        true
    }

    open spec fn bitand_req(self, rhs: Result<usize, E>) -> bool {
        true
    }

    open spec fn bitand_spec(self, rhs: Result<usize, E>) -> TaggedWord {
        self.bit_and(TaggedWord::collapse(rhs))
    }
}

impl core::ops::BitAndAssign<TaggedWord> for TaggedWord {
    fn bitand_assign(&mut self, rhs: TaggedWord)
        ensures
            *final(self) == old(self).bit_and(rhs),
    {
        *self = core::ops::BitAnd::bitand(*self, rhs);
    }
}

impl core::ops::BitAndAssign<usize> for TaggedWord {
    fn bitand_assign(&mut self, rhs: usize)
        ensures
            *final(self) == old(self).bit_and(TaggedWord::Valid(rhs)),
    {
        *self = core::ops::BitAnd::bitand(*self, TaggedWord::Valid(rhs));
    }
}

impl<E> core::ops::BitAndAssign<Result<usize, E>> for TaggedWord {
    fn bitand_assign(&mut self, rhs: Result<usize, E>)
        ensures
            *final(self) == old(self).bit_and(TaggedWord::collapse(rhs)),
    {
        *self = core::ops::BitAnd::bitand(*self, TaggedWord::from(rhs));
    }
}

impl core::ops::BitOr<TaggedWord> for TaggedWord {
    type Output = TaggedWord;

    fn bitor(self, rhs: TaggedWord) -> (out: TaggedWord)
        ensures
            out == self.bit_or(rhs),
    {
        match (self, rhs) {
            (TaggedWord::Valid(x), TaggedWord::Valid(y)) => {
                TaggedWord::Valid(x | y)
            },
            _ => TaggedWord::Invalid,
        }
    }
}

impl BitOrSpecImpl<TaggedWord> for TaggedWord {
    open spec fn obeys_bitor_spec() -> bool {
        true
    }

    open spec fn bitor_req(self, rhs: TaggedWord) -> bool {
        true
    }

    open spec fn bitor_spec(self, rhs: TaggedWord) -> TaggedWord {
        self.bit_or(rhs)
    }
}

impl core::ops::BitOr<usize> for TaggedWord {
    type Output = TaggedWord;

    fn bitor(self, rhs: usize) -> (out: TaggedWord)
        ensures
            out == self.bit_or(TaggedWord::Valid(rhs)),
    {
        core::ops::BitOr::bitor(self, TaggedWord::Valid(rhs))
    }
}

impl BitOrSpecImpl<usize> for TaggedWord {
    open spec fn obeys_bitor_spec() -> bool {
        true
    }

    open spec fn bitor_req(self, rhs: usize) -> bool {
        true
    }

    open spec fn bitor_spec(self, rhs: usize) -> TaggedWord {
        self.bit_or(TaggedWord::Valid(rhs))
    }
}

impl<E> core::ops::BitOr<Result<usize, E>> for TaggedWord {
    type Output = TaggedWord;

    fn bitor(self, rhs: Result<usize, E>) -> (out: TaggedWord)
        ensures
            out == self.bit_or(TaggedWord::collapse(rhs)),
    {
        core::ops::BitOr::bitor(self, TaggedWord::from(rhs))
    }
}

impl<E> BitOrSpecImpl<Result<usize, E>> for TaggedWord {
    open spec fn obeys_bitor_spec() -> bool {
        true
    }

    open spec fn bitor_req(self, rhs: Result<usize, E>) -> bool {
        true
    }

    open spec fn bitor_spec(self, rhs: Result<usize, E>) -> TaggedWord {
        self.bit_or(TaggedWord::collapse(rhs))
    }
}

impl core::ops::BitOrAssign<TaggedWord> for TaggedWord {
    fn bitor_assign(&mut self, rhs: TaggedWord)
        ensures
            *final(self) == old(self).bit_or(rhs),
    {
        *self = core::ops::BitOr::bitor(*self, rhs);
    }
}

impl core::ops::BitOrAssign<usize> for TaggedWord {
    fn bitor_assign(&mut self, rhs: usize)
        ensures
            *final(self) == old(self).bit_or(TaggedWord::Valid(rhs)),
    {
        *self = core::ops::BitOr::bitor(*self, TaggedWord::Valid(rhs));
    }
}

impl<E> core::ops::BitOrAssign<Result<usize, E>> for TaggedWord {
    fn bitor_assign(&mut self, rhs: Result<usize, E>)
        ensures
            *final(self) == old(self).bit_or(TaggedWord::collapse(rhs)),
    {
        *self = core::ops::BitOr::bitor(*self, TaggedWord::from(rhs));
    }
}

impl core::ops::BitXor<TaggedWord> for TaggedWord {
    type Output = TaggedWord;

    fn bitxor(self, rhs: TaggedWord) -> (out: TaggedWord)
        ensures
            out == self.bit_xor(rhs),
    {
        match (self, rhs) {
            (TaggedWord::Valid(x), TaggedWord::Valid(y)) => {
                TaggedWord::Valid(x ^ y)
            },
            _ => TaggedWord::Invalid,
        }
    }
}

impl BitXorSpecImpl<TaggedWord> for TaggedWord {
    open spec fn obeys_bitxor_spec() -> bool {
        true
    }

    open spec fn bitxor_req(self, rhs: TaggedWord) -> bool {
        true
    }

    open spec fn bitxor_spec(self, rhs: TaggedWord) -> TaggedWord {
        self.bit_xor(rhs)
    }
}

impl core::ops::BitXor<usize> for TaggedWord {
    type Output = TaggedWord;

    fn bitxor(self, rhs: usize) -> (out: TaggedWord)
        ensures
            out == self.bit_xor(TaggedWord::Valid(rhs)),
    {
        core::ops::BitXor::bitxor(self, TaggedWord::Valid(rhs))
    }
}

impl BitXorSpecImpl<usize> for TaggedWord {
    open spec fn obeys_bitxor_spec() -> bool {
        true
    }

    open spec fn bitxor_req(self, rhs: usize) -> bool {
        true
    }

    open spec fn bitxor_spec(self, rhs: usize) -> TaggedWord {
        self.bit_xor(TaggedWord::Valid(rhs))
    }
}

impl<E> core::ops::BitXor<Result<usize, E>> for TaggedWord {
    type Output = TaggedWord;

    fn bitxor(self, rhs: Result<usize, E>) -> (out: TaggedWord)
        ensures
            out == self.bit_xor(TaggedWord::collapse(rhs)),
    {
        core::ops::BitXor::bitxor(self, TaggedWord::from(rhs))
    }
}

impl<E> BitXorSpecImpl<Result<usize, E>> for TaggedWord {
    open spec fn obeys_bitxor_spec() -> bool {
        true
    }

    open spec fn bitxor_req(self, rhs: Result<usize, E>) -> bool {
        true
    }

    open spec fn bitxor_spec(self, rhs: Result<usize, E>) -> TaggedWord {
        self.bit_xor(TaggedWord::collapse(rhs))
    }
}

impl core::ops::BitXorAssign<TaggedWord> for TaggedWord {
    fn bitxor_assign(&mut self, rhs: TaggedWord)
        ensures
            *final(self) == old(self).bit_xor(rhs),
    {
        *self = core::ops::BitXor::bitxor(*self, rhs);
    }
}

impl core::ops::BitXorAssign<usize> for TaggedWord {
    fn bitxor_assign(&mut self, rhs: usize)
        ensures
            *final(self) == old(self).bit_xor(TaggedWord::Valid(rhs)),
    {
        *self = core::ops::BitXor::bitxor(*self, TaggedWord::Valid(rhs));
    }
}

impl<E> core::ops::BitXorAssign<Result<usize, E>> for TaggedWord {
    fn bitxor_assign(&mut self, rhs: Result<usize, E>)
        ensures
            *final(self) == old(self).bit_xor(TaggedWord::collapse(rhs)),
    {
        *self = core::ops::BitXor::bitxor(*self, TaggedWord::from(rhs));
    }
}

impl core::ops::Shl<TaggedWord> for TaggedWord {
    type Output = TaggedWord;

    fn shl(self, rhs: TaggedWord) -> (out: TaggedWord)
        ensures
            out == self.shifted_left(rhs),
    {
        match (self, rhs) {
            (TaggedWord::Valid(x), TaggedWord::Valid(y)) => {
                TaggedWord::Valid(x.wrapping_shl(shift_amount(y)))
            },
            _ => TaggedWord::Invalid,
        }
    }
}

impl ShlSpecImpl<TaggedWord> for TaggedWord {
    open spec fn obeys_shl_spec() -> bool {
        true
    }

    open spec fn shl_req(self, rhs: TaggedWord) -> bool {
        true
    }

    open spec fn shl_spec(self, rhs: TaggedWord) -> TaggedWord {
        self.shifted_left(rhs)
    }
}

impl core::ops::Shl<usize> for TaggedWord {
    type Output = TaggedWord;

    fn shl(self, rhs: usize) -> (out: TaggedWord)
        ensures
            out == self.shifted_left(TaggedWord::Valid(rhs)),
    {
        core::ops::Shl::shl(self, TaggedWord::Valid(rhs))
    }
}

impl ShlSpecImpl<usize> for TaggedWord {
    open spec fn obeys_shl_spec() -> bool {
        true
    }

    open spec fn shl_req(self, rhs: usize) -> bool {
        true
    }

    open spec fn shl_spec(self, rhs: usize) -> TaggedWord {
        self.shifted_left(TaggedWord::Valid(rhs))
    }
}

impl<E> core::ops::Shl<Result<usize, E>> for TaggedWord {
    type Output = TaggedWord;

    fn shl(self, rhs: Result<usize, E>) -> (out: TaggedWord)
        ensures
            out == self.shifted_left(TaggedWord::collapse(rhs)),
    {
        core::ops::Shl::shl(self, TaggedWord::from(rhs))
    }
}

impl<E> ShlSpecImpl<Result<usize, E>> for TaggedWord {
    open spec fn obeys_shl_spec() -> bool {
        true
    }

    open spec fn shl_req(self, rhs: Result<usize, E>) -> bool {
        true
    }

    open spec fn shl_spec(self, rhs: Result<usize, E>) -> TaggedWord {
        self.shifted_left(TaggedWord::collapse(rhs))
    }
}

impl core::ops::ShlAssign<TaggedWord> for TaggedWord {
    fn shl_assign(&mut self, rhs: TaggedWord)
        ensures
            *final(self) == old(self).shifted_left(rhs),
    {
        *self = core::ops::Shl::shl(*self, rhs);
    }
}

impl core::ops::ShlAssign<usize> for TaggedWord {
    fn shl_assign(&mut self, rhs: usize)
        ensures
            *final(self) == old(self).shifted_left(TaggedWord::Valid(rhs)),
    {
        *self = core::ops::Shl::shl(*self, TaggedWord::Valid(rhs));
    }
}

impl<E> core::ops::ShlAssign<Result<usize, E>> for TaggedWord {
    fn shl_assign(&mut self, rhs: Result<usize, E>)
        ensures
            *final(self) == old(self).shifted_left(TaggedWord::collapse(rhs)),
    {
        *self = core::ops::Shl::shl(*self, TaggedWord::from(rhs));
    }
}

impl core::ops::Shr<TaggedWord> for TaggedWord {
    type Output = TaggedWord;

    fn shr(self, rhs: TaggedWord) -> (out: TaggedWord)
        ensures
            out == self.shifted_right(rhs),
    {
        match (self, rhs) {
            (TaggedWord::Valid(x), TaggedWord::Valid(y)) => {
                TaggedWord::Valid(x.wrapping_shr(shift_amount(y)))
            },
            _ => TaggedWord::Invalid,
        }
    }
}

impl ShrSpecImpl<TaggedWord> for TaggedWord {
    open spec fn obeys_shr_spec() -> bool {
        true
    }

    open spec fn shr_req(self, rhs: TaggedWord) -> bool {
        true
    }

    open spec fn shr_spec(self, rhs: TaggedWord) -> TaggedWord {
        self.shifted_right(rhs)
    }
}

impl core::ops::Shr<usize> for TaggedWord {
    type Output = TaggedWord;

    fn shr(self, rhs: usize) -> (out: TaggedWord)
        ensures
            out == self.shifted_right(TaggedWord::Valid(rhs)),
    {
        core::ops::Shr::shr(self, TaggedWord::Valid(rhs))
    }
}

impl ShrSpecImpl<usize> for TaggedWord {
    open spec fn obeys_shr_spec() -> bool {
        true
    }

    open spec fn shr_req(self, rhs: usize) -> bool {
        true
    }

    open spec fn shr_spec(self, rhs: usize) -> TaggedWord {
        self.shifted_right(TaggedWord::Valid(rhs))
    }
}

impl<E> core::ops::Shr<Result<usize, E>> for TaggedWord {
    type Output = TaggedWord;

    fn shr(self, rhs: Result<usize, E>) -> (out: TaggedWord)
        ensures
            out == self.shifted_right(TaggedWord::collapse(rhs)),
    {
        core::ops::Shr::shr(self, TaggedWord::from(rhs))
    }
}

impl<E> ShrSpecImpl<Result<usize, E>> for TaggedWord {
    open spec fn obeys_shr_spec() -> bool {
        true
    }

    open spec fn shr_req(self, rhs: Result<usize, E>) -> bool {
        true
    }

    open spec fn shr_spec(self, rhs: Result<usize, E>) -> TaggedWord {
        self.shifted_right(TaggedWord::collapse(rhs))
    }
}

impl core::ops::ShrAssign<TaggedWord> for TaggedWord {
    fn shr_assign(&mut self, rhs: TaggedWord)
        ensures
            *final(self) == old(self).shifted_right(rhs),
    {
        *self = core::ops::Shr::shr(*self, rhs);
    }
}

impl core::ops::ShrAssign<usize> for TaggedWord {
    fn shr_assign(&mut self, rhs: usize)
        ensures
            *final(self) == old(self).shifted_right(TaggedWord::Valid(rhs)),
    {
        *self = core::ops::Shr::shr(*self, TaggedWord::Valid(rhs));
    }
}

impl<E> core::ops::ShrAssign<Result<usize, E>> for TaggedWord {
    fn shr_assign(&mut self, rhs: Result<usize, E>)
        ensures
            *final(self) == old(self).shifted_right(TaggedWord::collapse(rhs)),
    {
        *self = core::ops::Shr::shr(*self, TaggedWord::from(rhs));
    }
}

/// Invalidity spreads: where either operand is invalid, the result of every
/// operator is invalid.
pub proof fn lemma_invalid_operand(a: TaggedWord, b: TaggedWord)
    requires
        a is Invalid || b is Invalid,
    ensures
        a.sum(b) is Invalid,
        a.difference(b) is Invalid,
        a.product(b) is Invalid,
        a.quotient(b) is Invalid,
        a.remainder(b) is Invalid,
        a.bit_and(b) is Invalid,
        a.bit_or(b) is Invalid,
        a.bit_xor(b) is Invalid,
        a.shifted_left(b) is Invalid,
        a.shifted_right(b) is Invalid,
{
}

/// On valid operands every operator gives the valid word that the machine
/// operation computes, wrapped to the width of a word: the residue of the
/// exact sum, difference and product; the quotient and the remainder by a
/// divisor other than zero, which fit as they are; the bitwise combinations;
/// and the shifts by the right operand modulo the width.
pub proof fn lemma_valid_operands(x: usize, y: usize)
    ensures
        TaggedWord::Valid(x).sum(TaggedWord::Valid(y)) == TaggedWord::Valid(wrap(x + y)),
        TaggedWord::Valid(x).difference(TaggedWord::Valid(y)) == TaggedWord::Valid(wrap(x - y)),
        TaggedWord::Valid(x).product(TaggedWord::Valid(y)) == TaggedWord::Valid(wrap(x * y)),
        y != 0 ==> TaggedWord::Valid(x).quotient(TaggedWord::Valid(y)) == TaggedWord::Valid(
            wrap(x as int / y as int),
        ),
        y != 0 ==> TaggedWord::Valid(x).remainder(TaggedWord::Valid(y)) == TaggedWord::Valid(
            wrap(x as int % y as int),
        ),
        TaggedWord::Valid(x).bit_and(TaggedWord::Valid(y)) == TaggedWord::Valid(x & y),
        TaggedWord::Valid(x).bit_or(TaggedWord::Valid(y)) == TaggedWord::Valid(x | y),
        TaggedWord::Valid(x).bit_xor(TaggedWord::Valid(y)) == TaggedWord::Valid(x ^ y),
        TaggedWord::Valid(x).shifted_left(TaggedWord::Valid(y)) == TaggedWord::Valid(
            x << shift_distance(y),
        ),
        TaggedWord::Valid(x).shifted_right(TaggedWord::Valid(y)) == TaggedWord::Valid(
            x >> shift_distance(y),
        ),
{
    if y != 0 {
        let q = x as int / y as int;
        let r = x as int % y as int;
        assert(0 <= q <= x && 0 <= r <= x) by (nonlinear_arith)
            requires
                y > 0,
                x >= 0,
                q == x as int / y as int,
                r == x as int % y as int,
        ;
        lemma_wrap_fits(q);
        lemma_wrap_fits(r);
    }
}

} // verus!
