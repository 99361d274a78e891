//! Sample normalization: conversion of raw capture samples to signed 16-bit
//! PCM and reduction of interleaved stereo blocks to mono.

use vstd::prelude::*;

verus! {

/// Truncating (toward zero) halving of a sample value, as Rust's `/ 2`
/// computes it on signed integers.
pub open spec fn half(x: int) -> int {
    if x >= 0 {
        x / 2
    } else {
        -((-x) / 2)
    }
}

/// The downmix formula: each operand is halved with truncating division
/// before the two halves are summed. For odd operands this biases the
/// result toward zero, deliberately: `(3, 3)` gives `1 + 1 == 2`.
pub open spec fn mono_sample(left: int, right: int) -> int {
    half(left) + half(right)
}

/// Reduces an interleaved two-channel block to mono by pairing adjacent
/// samples. An odd trailing sample is dropped.
pub fn stereo_to_mono(input_data: &[i16]) -> (result: Vec<i16>)
    ensures
        result@.len() == input_data@.len() / 2,
        forall|i: int|
            0 <= i < result@.len() ==> result@[i] as int == mono_sample(
                input_data@[2 * i] as int,
                input_data@[2 * i + 1] as int,
            ),
{
    let n: usize = input_data.len() / 2;
    let mut result: Vec<i16> = Vec::with_capacity(n);
    let mut k: usize = 0;
    while k < n
        invariant
            n == input_data@.len() / 2,
            2 * n <= input_data@.len() <= usize::MAX,
            k <= n,
            result@.len() == k,
            forall|i: int|
                0 <= i < k ==> result@[i] as int == mono_sample(
                    input_data@[2 * i] as int,
                    input_data@[2 * i + 1] as int,
                ),
        decreases n - k,
    {
        let left = input_data[2 * k];
        let right = input_data[2 * k + 1];
        let mono: i16 = left / 2 + right / 2;
        result.push(mono);
        k = k + 1;
    }
    result
}

/// The canonical signed value of an unsigned 16-bit sample: the full
/// unsigned range rescaled linearly onto the signed 16-bit range.
pub open spec fn pcm_of_u16(s: u16) -> int {
    s - 32768
}

/// Relies on dasp_sample's `conv::u16::to_i16`: an unsigned 16-bit sample
/// is mapped onto the signed range by subtracting 32768.
#[verifier::external_body]
fn sample_u16_to_i16(s: u16) -> (r: i16)
    ensures
        r as int == pcm_of_u16(s),
{
    dasp::sample::conv::u16::to_i16(s)
}

/// Converts an unsigned 16-bit block to signed PCM, sample for sample.
pub fn convert_u16_block(data: &[u16]) -> (result: Vec<i16>)
    ensures
        result@.len() == data@.len(),
        forall|i: int| 0 <= i < data@.len() ==> result@[i] as int == pcm_of_u16(data@[i]),
{
    let n: usize = data.len();
    let mut result: Vec<i16> = Vec::with_capacity(n);
    let mut k: usize = 0;
    while k < n
        invariant
            n == data@.len(),
            k <= n,
            result@.len() == k,
            forall|i: int| 0 <= i < k ==> result@[i] as int == pcm_of_u16(data@[i]),
        decreases n - k,
    {
        let s = sample_u16_to_i16(data[k]);
        result.push(s);
        k = k + 1;
    }
    result
}

/// Normalizes a signed 16-bit capture block. Representation conversion is
/// the identity here; a block from a stream with more than one channel is
/// reduced pairwise to mono, a single-channel block passes through.
pub fn normalize_i16_block(data: &[i16], channels: u16) -> (result: Vec<i16>)
    ensures
        channels == 1 ==> result@ == data@,
        channels != 1 ==> result@.len() == data@.len() / 2,
        channels != 1 ==> forall|i: int|
            0 <= i < result@.len() ==> result@[i] as int == mono_sample(
                data@[2 * i] as int,
                data@[2 * i + 1] as int,
            ),
{
    if channels != 1 {
        stereo_to_mono(data)
    } else {
        vstd::slice::slice_to_vec(data)
    }
}

/// Normalizes an unsigned 16-bit capture block: every sample is rescaled to
/// signed PCM, then channels are reduced as in `normalize_i16_block`.
pub fn normalize_u16_block(data: &[u16], channels: u16) -> (result: Vec<i16>)
    ensures
        channels == 1 ==> result@.len() == data@.len(),
        channels == 1 ==> forall|i: int|
            0 <= i < result@.len() ==> result@[i] as int == pcm_of_u16(data@[i]),
        channels != 1 ==> result@.len() == data@.len() / 2,
        channels != 1 ==> forall|i: int|
            0 <= i < result@.len() ==> result@[i] as int == mono_sample(
                pcm_of_u16(data@[2 * i]),
                pcm_of_u16(data@[2 * i + 1]),
            ),
{
    let converted = convert_u16_block(data);
    normalize_i16_block(converted.as_slice(), channels)
}

} // verus!
