//! The container of one compressed stream.

use crate::bytes::first_mismatch;
use crate::bytes::lemma_no_difference_is_equality;
use crate::codec::decode_outcome;
use crate::codec::decompress;
use crate::codec::decompress_boxed;
use crate::codec::has_magic_number;
use crate::codec::zstd_frame;
use crate::error::DecodeError;
use crate::order::lemma_order_equal;
use crate::order::lex_order;
use std::cmp::Ordering;
use vstd::prelude::*;
use vstd::std_specs::cmp::PartialEqSpec;
use vstd::std_specs::cmp::PartialOrdSpec;

verus! {

/// One compressed stream of exactly `SIZE` bytes.
///
/// The bytes are kept as they were handed over: nothing is added to them,
/// and nothing is checked before they are decompressed. Instances compare,
/// order and hash by these bytes, not by what they decompress to.
#[derive(Clone, Copy, Debug, Eq, Ord, Hash)]
pub struct EmbeddedZstd<const SIZE: usize> {
    data: [u8; SIZE],
}

impl<const SIZE: usize> View for EmbeddedZstd<SIZE> {
    type V = Seq<u8>;

    closed spec fn view(&self) -> Seq<u8> {
        self.data@
    }
}

impl<const SIZE: usize> EmbeddedZstd<SIZE> {
    /// Wraps `data` without looking at it.
    ///
    /// Whether `data` is a complete compressed stream shows only when it is
    /// decompressed.
    #[must_use]
    pub fn new_unchecked(data: [u8; SIZE]) -> (asset: Self)
        ensures
            asset@ == data@,
    {
        EmbeddedZstd { data }
    }

    /// The number of bytes in the compressed stream.
    pub fn size(&self) -> (n: usize)
        ensures
            n == SIZE,
            n == self@.len(),
    {
        SIZE
    }

    /// Decompresses the stream into a vector.
    ///
    /// Bytes that are no complete compressed stream give an error, and never
    /// a content.
    pub fn decompress_to_vec(&self) -> (result: Result<Vec<u8>, DecodeError>)
        ensures
            match result {
                Ok(content) => decode_outcome(self@) == Ok::<Seq<u8>, DecodeError>(content@),
                Err(e) => decode_outcome(self@) == Err::<Seq<u8>, DecodeError>(e),
            },
            !has_magic_number(self@) ==> result == Err::<Vec<u8>, DecodeError>(
                DecodeError::Header,
            ),
    {
        decompress(&self.data)
    }

    /// Decompresses the stream into a slice that cannot grow.
    pub fn decompress_to_boxed_slice(&self) -> (result: Result<Box<[u8]>, DecodeError>)
        ensures
            match result {
                Ok(content) => decode_outcome(self@) == Ok::<Seq<u8>, DecodeError>(content@),
                Err(e) => decode_outcome(self@) == Err::<Seq<u8>, DecodeError>(e),
            },
            !has_magic_number(self@) ==> result == Err::<Box<[u8]>, DecodeError>(
                DecodeError::Header,
            ),
    {
        decompress_boxed(&self.data)
    }
}

impl<const SIZE: usize> PartialEq for EmbeddedZstd<SIZE> {
    fn eq(&self, other: &Self) -> (equal: bool) {
        proof {
            lemma_no_difference_is_equality(self@, other@);
        }
        first_mismatch(&self.data, &other.data) == SIZE
    }
}

impl<const SIZE: usize> vstd::std_specs::cmp::PartialEqSpecImpl for EmbeddedZstd<SIZE> {
    open spec fn obeys_eq_spec() -> bool {
        true
    }

    open spec fn eq_spec(&self, other: &Self) -> bool {
        self@ == other@
    }
}

impl<const SIZE: usize> PartialOrd for EmbeddedZstd<SIZE> {
    fn partial_cmp(&self, other: &Self) -> (order: Option<Ordering>) {
        let k = first_mismatch(&self.data, &other.data);
        if k < SIZE {
            if self.data[k] < other.data[k] {
                Some(Ordering::Less)
            } else {
                Some(Ordering::Greater)
            }
        } else {
            Some(Ordering::Equal)
        }
    }
}

impl<const SIZE: usize> vstd::std_specs::cmp::PartialOrdSpecImpl for EmbeddedZstd<SIZE> {
    open spec fn obeys_partial_cmp_spec() -> bool {
        true
    }

    open spec fn partial_cmp_spec(&self, other: &Self) -> Option<Ordering> {
        Some(lex_order(self@, other@))
    }
}

/// An asset of size `SIZE` holds exactly `SIZE` bytes.
pub proof fn lemma_stream_length<const SIZE: usize>(asset: EmbeddedZstd<SIZE>)
    ensures
        asset@.len() == SIZE,
{
}

/// Two assets are equal exactly when they hold the same bytes, and exactly
/// then neither comes before the other.
pub proof fn lemma_equality_is_stream_equality<const SIZE: usize>(
    a: EmbeddedZstd<SIZE>,
    b: EmbeddedZstd<SIZE>,
)
    ensures
        a.eq_spec(&b) <==> a@ == b@,
        a.partial_cmp_spec(&b) == Some(Ordering::Equal) <==> a@ == b@,
{
    lemma_order_equal(a@, b@);
}

/// Two assets that hold the frame of the same bytes at the same level are
/// equal.
pub proof fn lemma_same_embedding_equal<const SIZE: usize>(
    bytes: Seq<u8>,
    level: int,
    a: EmbeddedZstd<SIZE>,
    b: EmbeddedZstd<SIZE>,
)
    requires
        a@ == zstd_frame(bytes, level),
        b@ == zstd_frame(bytes, level),
    ensures
        a.eq_spec(&b),
        a.partial_cmp_spec(&b) == Some(Ordering::Equal),
{
    lemma_order_equal(a@, b@);
}

} // verus!
