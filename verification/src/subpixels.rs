//! A fixed number of channels that are scaled and added as one element.
use vstd::prelude::*;
use vstd::std_specs::convert::{FromSpec, TryFromSpec};
use vstd::std_specs::ops::{AddSpec, MulSpec};
use core::ops::{Add, Mul};
use crate::saturating::{SaturatingAdd, SaturatingMul};

verus! {

/// A collection of subpixels that should make working with multi-channeled images more convenient.
///
/// The channels are combined one by one: the sum of two values holds the sums
/// of their channels, and a value scaled by a factor holds each of its
/// channels scaled by that factor. No channel has a part in another.
#[derive(Debug, Copy, PartialEq, Eq)]
pub struct SubPixels<T: Copy, const N: usize>(pub [T; N]);

impl<T: Copy, const N: usize> Clone for SubPixels<T, N> {
    fn clone(&self) -> (copy: Self)
        ensures
            copy == *self,
    {
        *self
    }
}

/// The value whose channels are `channels`.
pub open spec fn from_channels<T: Copy, const N: usize>(channels: Seq<T>) -> SubPixels<T, N> {
    choose|pixel: SubPixels<T, N>| pixel.0@ == channels
}

/// A value is the one that has its channels.
pub proof fn lemma_from_channels<T: Copy, const N: usize>(pixel: SubPixels<T, N>)
    ensures
        from_channels::<T, N>(pixel.0@) == pixel,
{
    let found = from_channels::<T, N>(pixel.0@);
    assert(found.0@ == pixel.0@);
    assert(found.0 =~= pixel.0);
}

/// An array whose first `filled` elements are those of `channels`.
spec fn array_of<T, const N: usize>(channels: Seq<T>, filled: nat) -> [T; N]
    decreases filled,
{
    if filled == 0 {
        arbitrary()
    } else {
        vstd::array::spec_array_update(
            array_of::<T, N>(channels, (filled - 1) as nat),
            filled - 1,
            channels[filled - 1],
        )
    }
}

proof fn lemma_array_of<T, const N: usize>(channels: Seq<T>, filled: nat)
    requires
        filled <= N,
    ensures
        forall|i: int| 0 <= i < filled ==> array_of::<T, N>(channels, filled)@[i] == channels[i],
    decreases filled,
{
    if filled > 0 {
        lemma_array_of::<T, N>(channels, (filled - 1) as nat);
    }
}

/// Every sequence of `N` channels is held by a value.
pub proof fn lemma_channels_held<T: Copy, const N: usize>(channels: Seq<T>)
    requires
        channels.len() == N,
    ensures
        from_channels::<T, N>(channels).0@ == channels,
{
    lemma_array_of::<T, N>(channels, N as nat);
    let holder = SubPixels::<T, N>(array_of::<T, N>(channels, N as nat));
    assert(holder.0@ =~= channels);
}

/// Converting `channel` can fail with `error`.
pub open spec fn refused<T, U: TryFrom<T>>(channel: T, error: U::Error) -> bool {
    call_ensures(U::try_from, (channel,), Err::<U, U::Error>(error))
}

impl<T: Copy, const N: usize> SubPixels<T, N> {
    /// Perform an infallible type conversion
    pub fn convert<U: From<T> + Copy + Default>(self) -> (converted: SubPixels<U, N>)
        ensures
            forall|i: int|
                0 <= i < N ==> call_ensures(U::from, (self.0@[i],), #[trigger] converted.0@[i]),
            U::obeys_from_spec() ==> forall|i: int|
                0 <= i < N ==> #[trigger] converted.0@[i] == U::from_spec(self.0@[i]),
    {
        let mut arr = [U::default();N];
        let mut i: usize = 0;
        while i < N
            invariant
                i <= N,
                forall|j: int|
                    0 <= j < i ==> call_ensures(U::from, (self.0@[j],), #[trigger] arr@[j]),
            decreases N - i,
        {
            arr[i] = U::from(self.0[i]);
            i += 1;
        }
        SubPixels(arr)
    }

    /// Perform a fallible type conversion
    ///
    /// The channels are converted in order. The first one that cannot be
    /// converted ends the conversion with its error.
    pub fn try_convert<U: TryFrom<T> + Copy + Default>(self) -> (converted: Result<
        SubPixels<U, N>,
        U::Error,
    >)
        ensures
            converted matches Ok(pixel) ==> forall|i: int|
                0 <= i < N ==> call_ensures(U::try_from, (self.0@[i],), Ok(#[trigger] pixel.0@[i])),
            converted matches Err(error) ==> exists|i: int|
                0 <= i < N && #[trigger] refused::<T, U>(self.0@[i], error),
            U::obeys_try_from_spec() ==> (converted matches Ok(pixel) ==> forall|i: int|
                0 <= i < N ==> U::try_from_spec(self.0@[i]) == Ok::<U, U::Error>(
                    #[trigger] pixel.0@[i],
                )),
            U::obeys_try_from_spec() ==> (converted matches Err(error) ==> exists|i: int|
                0 <= i < N && #[trigger] U::try_from_spec(self.0@[i]) == Err::<U, U::Error>(error)
                    && forall|j: int|
                    0 <= j < i ==> (#[trigger] U::try_from_spec(self.0@[j])).is_ok()),
    {
        let mut arr = [U::default();N];
        let mut i: usize = 0;
        while i < N
            invariant
                i <= N,
                forall|j: int|
                    0 <= j < i ==> call_ensures(
                        U::try_from,
                        (self.0@[j],),
                        Ok(#[trigger] arr@[j]),
                    ),
                U::obeys_try_from_spec() ==> forall|j: int|
                    #![trigger arr@[j]]
                    #![trigger self.0@[j]]
                    0 <= j < i ==> U::try_from_spec(self.0@[j]) == Ok::<U, U::Error>(arr@[j]),
            decreases N - i,
        {
            match U::try_from(self.0[i]) {
                Ok(channel) => {
                    arr[i] = channel;
                },
                Err(error) => {
                    let failed: Result<SubPixels<U, N>, U::Error> = Err(error);
                    assert(failed matches Err(e) ==> refused::<T, U>(self.0@[i as int], e));
                    return failed;
                },
            }
            i += 1;
        }
        Ok(SubPixels(arr))
    }

    /// Perform a map operation, applying the provided function to each subpixel.
    pub fn map<F, O>(self, operation: F) -> (mapped: SubPixels<O, N>) where
        F: Fn(T) -> O,
        O: Default + Copy,

        requires
            forall|i: int| 0 <= i < N ==> call_requires(operation, (#[trigger] self.0@[i],)),
        ensures
            forall|i: int|
                0 <= i < N ==> call_ensures(operation, (self.0@[i],), #[trigger] mapped.0@[i]),
    {
        let mut arr = [O::default();N];
        let mut i: usize = 0;
        while i < N
            invariant
                i <= N,
                forall|j: int| 0 <= j < N ==> call_requires(operation, (#[trigger] self.0@[j],)),
                forall|j: int|
                    0 <= j < i ==> call_ensures(operation, (self.0@[j],), #[trigger] arr@[j]),
            decreases N - i,
        {
            arr[i] = operation(self.0[i]);
            i += 1;
        }
        SubPixels(arr)
    }
}

impl<T: Copy, const N: usize> From<[T; N]> for SubPixels<T, N> {
    /// The value that holds the channels of `other`.
    fn from(other: [T; N]) -> (pixel: Self)
        ensures
            pixel.0 == other,
    {
        Self(other)
    }
}

impl<T: Copy, const N: usize> vstd::std_specs::convert::FromSpecImpl<[T; N]> for SubPixels<T, N> {
    open spec fn obeys_from_spec() -> bool {
        true
    }

    open spec fn from_spec(other: [T; N]) -> Self {
        SubPixels(other)
    }
}

impl<T: Add<Output = T> + Copy, const N: usize> Add for SubPixels<T, N> {
    type Output = Self;

    /// The sum, channel by channel.
    fn add(self, rhs: Self) -> (total: Self)
        ensures
            T::obeys_add_spec() ==> forall|i: int|
                0 <= i < N ==> #[trigger] total.0@[i] == self.0@[i].add_spec(rhs.0@[i]),
    {
        let mut total = self;
        let mut i: usize = 0;
        while i < N
            invariant
                i <= N,
                forall|j: int| 0 <= j < N ==> (#[trigger] self.0@[j]).add_req(rhs.0@[j]),
                T::obeys_add_spec() ==> forall|j: int|
                    0 <= j < i ==> #[trigger] total.0@[j] == self.0@[j].add_spec(rhs.0@[j]),
                forall|j: int| i <= j < N ==> #[trigger] total.0@[j] == self.0@[j],
            decreases N - i,
        {
            total.0[i] = total.0[i] + rhs.0[i];
            i += 1;
        }
        proof {
            if T::obeys_add_spec() {
                assert(total.0@ =~= channel_sums(self.0@, rhs.0@));
                lemma_from_channels(total);
            }
        }
        total
    }
}

/// The sums of the channels of two values, channel by channel.
pub open spec fn channel_sums<T: Add<Output = T>>(left: Seq<T>, right: Seq<T>) -> Seq<T> {
    Seq::new(left.len(), |i: int| left[i].add_spec(right[i]))
}

impl<T: Add<Output = T> + Copy, const N: usize> vstd::std_specs::ops::AddSpecImpl for SubPixels<T, N> {
    open spec fn obeys_add_spec() -> bool {
        T::obeys_add_spec()
    }

    open spec fn add_req(self, rhs: Self) -> bool {
        forall|i: int| 0 <= i < N ==> (#[trigger] self.0@[i]).add_req(rhs.0@[i])
    }

    open spec fn add_spec(self, rhs: Self) -> Self {
        from_channels(channel_sums(self.0@, rhs.0@))
    }
}

/// The channels of a value, each scaled by `factor`.
pub open spec fn channel_products<T: Mul<C, Output = O>, C, O>(channels: Seq<T>, factor: C) -> Seq<
    O,
> {
    Seq::new(channels.len(), |i: int| channels[i].mul_spec(factor))
}

impl<T, C, O, const N: usize> Mul<C> for SubPixels<T, N> where
    C: Copy,
    T: Mul<C, Output = O> + Copy,
    O: Default + Copy,
 {
    type Output = SubPixels<O, N>;

    /// The value with each channel scaled by `rhs`.
    fn mul(self, rhs: C) -> (scaled: SubPixels<O, N>)
        ensures
            T::obeys_mul_spec() ==> forall|i: int|
                0 <= i < N ==> #[trigger] scaled.0@[i] == self.0@[i].mul_spec(rhs),
    {
        let mut arr = [O::default();N];
        let mut i: usize = 0;
        while i < N
            invariant
                i <= N,
                forall|j: int| 0 <= j < N ==> (#[trigger] self.0@[j]).mul_req(rhs),
                T::obeys_mul_spec() ==> forall|j: int|
                    0 <= j < i ==> #[trigger] arr@[j] == self.0@[j].mul_spec(rhs),
            decreases N - i,
        {
            arr[i] = self.0[i] * rhs;
            i += 1;
        }
        let scaled = SubPixels(arr);
        proof {
            if T::obeys_mul_spec() {
                assert(scaled.0@ =~= channel_products(self.0@, rhs));
                lemma_from_channels(scaled);
            }
        }
        scaled
    }
}

impl<T, C, O, const N: usize> vstd::std_specs::ops::MulSpecImpl<C> for SubPixels<T, N> where
    C: Copy,
    T: Mul<C, Output = O> + Copy,
    O: Default + Copy,
 {
    open spec fn obeys_mul_spec() -> bool {
        T::obeys_mul_spec()
    }

    open spec fn mul_req(self, rhs: C) -> bool {
        forall|i: int| 0 <= i < N ==> (#[trigger] self.0@[i]).mul_req(rhs)
    }

    open spec fn mul_spec(self, rhs: C) -> SubPixels<O, N> {
        from_channels(channel_products(self.0@, rhs))
    }
}

impl<T: Copy + Default, const N: usize> Default for SubPixels<T, N> {
    fn default() -> (pixel: Self)
        ensures
            forall|i: int| 0 <= i < N ==> call_ensures(T::default, (), #[trigger] pixel.0@[i]),
    {
        Self([T::default();N])
    }
}

/// The saturating sums of the channels of two values, channel by channel.
pub open spec fn channel_saturating_sums<T: SaturatingAdd<Output = T>>(
    left: Seq<T>,
    right: Seq<T>,
) -> Seq<T> {
    Seq::new(left.len(), |i: int| left[i].saturating_add_spec(right[i]))
}

impl<T: SaturatingAdd<Output = T> + Copy, const N: usize> SaturatingAdd for SubPixels<T, N> {
    type Output = Self;

    open spec fn saturating_add_spec(self, rhs: Self) -> Self {
        from_channels(channel_saturating_sums(self.0@, rhs.0@))
    }

    /// The saturating sum, channel by channel.
    fn saturating_add(self, rhs: Self) -> (total: Self)
        ensures
            forall|i: int|
                0 <= i < N ==> #[trigger] total.0@[i] == self.0@[i].saturating_add_spec(rhs.0@[i]),
    {
        let mut total = self;
        let mut i: usize = 0;
        while i < N
            invariant
                i <= N,
                forall|j: int|
                    0 <= j < i ==> #[trigger] total.0@[j] == self.0@[j].saturating_add_spec(
                        rhs.0@[j],
                    ),
                forall|j: int| i <= j < N ==> #[trigger] total.0@[j] == self.0@[j],
            decreases N - i,
        {
            total.0[i] = total.0[i].saturating_add(rhs.0[i]);
            i += 1;
        }
        proof {
            assert(total.0@ =~= channel_saturating_sums(self.0@, rhs.0@));
            lemma_from_channels(total);
        }
        total
    }
}

/// The channels of a value, each scaled by `factor` without overflow.
pub open spec fn channel_saturating_products<T: SaturatingMul<C, Output = O>, C, O>(
    channels: Seq<T>,
    factor: C,
) -> Seq<O> {
    Seq::new(channels.len(), |i: int| channels[i].saturating_mul_spec(factor))
}

impl<T, C, O, const N: usize> SaturatingMul<C> for SubPixels<T, N> where
    C: Copy,
    T: SaturatingMul<C, Output = O> + Copy,
    O: Default + Copy,
 {
    type Output = SubPixels<O, N>;

    open spec fn saturating_mul_spec(self, rhs: C) -> SubPixels<O, N> {
        from_channels(channel_saturating_products(self.0@, rhs))
    }

    /// The value with each channel scaled by `rhs` without overflow.
    fn saturating_mul(self, rhs: C) -> (scaled: SubPixels<O, N>)
        ensures
            forall|i: int|
                0 <= i < N ==> #[trigger] scaled.0@[i] == self.0@[i].saturating_mul_spec(rhs),
    {
        let mut arr = [O::default();N];
        let mut i: usize = 0;
        while i < N
            invariant
                i <= N,
                forall|j: int|
                    0 <= j < i ==> #[trigger] arr@[j] == self.0@[j].saturating_mul_spec(rhs),
            decreases N - i,
        {
            arr[i] = self.0[i].saturating_mul(rhs);
            i += 1;
        }
        let scaled = SubPixels(arr);
        proof {
            assert(scaled.0@ =~= channel_saturating_products(self.0@, rhs));
            lemma_from_channels(scaled);
        }
        scaled
    }
}

/// Addition works on each channel by itself: a channel of the sum is the sum
/// of that channel of the two values.
pub proof fn lemma_sum_per_channel<T: Add<Output = T> + Copy, const N: usize>(
    left: SubPixels<T, N>,
    right: SubPixels<T, N>,
    channel: int,
)
    requires
        0 <= channel < N,
    ensures
        left.add_spec(right).0@[channel] == left.0@[channel].add_spec(right.0@[channel]),
{
    lemma_channels_held::<T, N>(channel_sums(left.0@, right.0@));
}

/// Scaling works on each channel by itself: a channel of the scaled value is
/// that channel of the value, scaled by the factor.
pub proof fn lemma_product_per_channel<T, C, O, const N: usize>(
    pixel: SubPixels<T, N>,
    factor: C,
    channel: int,
) where C: Copy, T: Mul<C, Output = O> + Copy, O: Default + Copy
    requires
        0 <= channel < N,
    ensures
        pixel.mul_spec(factor).0@[channel] == pixel.0@[channel].mul_spec(factor),
{
    lemma_channels_held::<O, N>(channel_products(pixel.0@, factor));
}

/// Saturating addition works on each channel by itself.
pub proof fn lemma_saturating_sum_per_channel<T: SaturatingAdd<Output = T> + Copy, const N: usize>(
    left: SubPixels<T, N>,
    right: SubPixels<T, N>,
    channel: int,
)
    requires
        0 <= channel < N,
    ensures
        left.saturating_add_spec(right).0@[channel] == left.0@[channel].saturating_add_spec(
            right.0@[channel],
        ),
{
    lemma_channels_held::<T, N>(channel_saturating_sums(left.0@, right.0@));
}

/// Saturating scaling works on each channel by itself.
pub proof fn lemma_saturating_product_per_channel<T, C, O, const N: usize>(
    pixel: SubPixels<T, N>,
    factor: C,
    channel: int,
) where C: Copy, T: SaturatingMul<C, Output = O> + Copy, O: Default + Copy
    requires
        0 <= channel < N,
    ensures
        pixel.saturating_mul_spec(factor).0@[channel] == pixel.0@[channel].saturating_mul_spec(
            factor,
        ),
{
    lemma_channels_held::<O, N>(channel_saturating_products(pixel.0@, factor));
}

} // verus!
