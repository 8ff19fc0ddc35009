//! A layer's blob: the check of its size and its decompression.

use vstd::prelude::*;
use crate::error::{ExtractionFault, RuntimeError, RuntimeErrorView};
use crate::manifest::{Layer, LayerView};

verus! {

/// `bytes::Bytes`, the buffer in which a layer's blob arrives. Nothing
/// inside it is visible to the verifier.
#[verifier::external_type_specification]
#[verifier::external_body]
pub struct ExBytes(bytes::Bytes);

/// The bytes that a `bytes::Bytes` holds, in order.
pub uninterp spec fn bytes_content(blob: bytes::Bytes) -> Seq<u8>;

/// `bytes::Bytes::len` returns the number of bytes that the buffer holds.
pub assume_specification[ bytes::Bytes::len ](blob: &bytes::Bytes) -> (n: usize)
    ensures
        n == bytes_content(*blob).len(),
;

/// What `flate2::read::GzDecoder` yields when it is read to its end over
/// `data`: the decompressed bytes of the first gzip member, or `None` where
/// the reading fails.
pub uninterp spec fn gzip_member(data: Seq<u8>) -> Option<Seq<u8>>;

/// The byte view of an optional buffer.
pub open spec fn optional_bytes(buffer: Option<Vec<u8>>) -> Option<Seq<u8>> {
    match buffer {
        Some(buffer) => Some(buffer@),
        None => None,
    }
}

/// Reads a `flate2::read::GzDecoder` over the blob's bytes to its end. The
/// contract claims only that the outcome is the function `gzip_member` of
/// those bytes: the same bytes decode to the same result.
#[verifier::external_body]
fn gunzip(blob: &bytes::Bytes) -> (decoded: Option<Vec<u8>>)
    ensures
        optional_bytes(decoded) == gzip_member(bytes_content(*blob)),
{
    let mut decoded = Vec::new();
    let mut decoder = flate2::read::GzDecoder::new(bytes::Buf::reader(blob.clone()));
    match std::io::Read::read_to_end(&mut decoder, &mut decoded) {
        Ok(_) => Some(decoded),
        Err(_) => None,
    }
}

/// The view of an archive or of the error in its place.
pub open spec fn archive_view(archive: Result<Vec<u8>, RuntimeError>) -> Result<
    Seq<u8>,
    RuntimeErrorView,
> {
    match archive {
        Ok(archive) => Ok(archive@),
        Err(error) => Err(error@),
    }
}

/// The size check: a blob passes when it holds exactly as many bytes as
/// its layer declares. Nothing else about a blob is checked.
pub open spec fn size_checked(layer: LayerView, actual: nat) -> Result<(), RuntimeErrorView> {
    if actual == layer.size {
        Ok(())
    } else {
        Err(RuntimeErrorView::LayerSizeMismatch { declared: layer.size, actual })
    }
}

/// What a decompression amounts to: the archive, or a
/// `LayerExtractionError`.
pub open spec fn decoded_archive(decoded: Option<Seq<u8>>) -> Result<Seq<u8>, RuntimeErrorView> {
    match decoded {
        Some(archive) => Ok(archive),
        None => Err(RuntimeErrorView::LayerExtractionError(ExtractionFault::Decompress)),
    }
}

/// The archive of a layer whose blob holds `blob`: the size is checked
/// first, and a blob of the wrong size is never decompressed.
pub open spec fn layer_archive(layer: LayerView, blob: Seq<u8>) -> Result<Seq<u8>, RuntimeErrorView> {
    match size_checked(layer, blob.len()) {
        Err(error) => Err(error),
        Ok(()) => decoded_archive(gzip_member(blob)),
    }
}

impl Layer {
    /// Checks that a blob of `actual` bytes has the size that this layer
    /// declares.
    pub fn check_size(&self, actual: usize) -> (out: Result<(), RuntimeError>)
        ensures
            out is Ok <==> actual == self.size,
            out matches Err(error) ==> error == (RuntimeError::LayerSizeMismatch {
                declared: self.size,
                actual,
            }),
            match out {
                Ok(()) => size_checked(self@, actual as nat) == Ok::<(), RuntimeErrorView>(()),
                Err(error) => size_checked(self@, actual as nat) == Err::<(), RuntimeErrorView>(
                    error@,
                ),
            },
    {
        if actual == self.size {
            Ok(())
        } else {
            Err(RuntimeError::LayerSizeMismatch { declared: self.size, actual })
        }
    }

    /// Checks the blob's size against this layer and, where it fits,
    /// decompresses the blob. The result holds the outcome of the
    /// decompression; a blob of the wrong size is not decompressed.
    pub fn open_checked(&self, blob: &bytes::Bytes) -> (out: Result<Option<Vec<u8>>, RuntimeError>)
        ensures
            match out {
                Ok(decoded) => size_checked(self@, bytes_content(*blob).len()) is Ok
                    && optional_bytes(decoded) == gzip_member(bytes_content(*blob)),
                Err(error) => size_checked(self@, bytes_content(*blob).len())
                    == Err::<(), RuntimeErrorView>(error@),
            },
    {
        match self.check_size(blob.len()) {
            Err(error) => Err(error),
            Ok(()) => Ok(gunzip(blob)),
        }
    }

    /// Checks the blob's size against this layer, then decompresses it.
    pub fn open(&self, blob: &bytes::Bytes) -> (out: Result<Vec<u8>, RuntimeError>)
        ensures
            archive_view(out) == layer_archive(self@, bytes_content(*blob)),
    {
        match self.open_checked(blob) {
            Err(error) => Err(error),
            Ok(decoded) => archive_from(decoded),
        }
    }
}

/// Turns the outcome of a decompression into the archive or a
/// `LayerExtractionError`.
pub fn archive_from(decoded: Option<Vec<u8>>) -> (out: Result<Vec<u8>, RuntimeError>)
    ensures
        archive_view(out) == decoded_archive(optional_bytes(decoded)),
        decoded matches Some(archive) ==> out == Ok::<Vec<u8>, RuntimeError>(archive),
        decoded is None ==> out == Err::<Vec<u8>, RuntimeError>(
            RuntimeError::LayerExtractionError(ExtractionFault::Decompress),
        ),
{
    match decoded {
        Some(archive) => Ok(archive),
        None => Err(RuntimeError::LayerExtractionError(ExtractionFault::Decompress)),
    }
}

} // verus!
