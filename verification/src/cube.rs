//! Ingestion of a volumetric data cube from a FITS byte stream.
//!
//! The container format is read by the `fitsrs` crate behind one trusted
//! scanner; everything around the scan is verified: the header screen of
//! [`crate::cards`] that keeps out the streams the parser cannot handle,
//! selecting the axis extents (with the fourth axis standing in for a
//! degenerate third one), validating them together with the sample format,
//! checking that the advertised data block really lies within the stream,
//! and decoding the big-endian sample words into the little-endian buffer
//! the GPU consumes.

use vstd::prelude::*;
use vstd::slice::slice_index_get;
use crate::cards::{header_screen_ok, screen_header};

verus! {

/// The error taxonomy of cube ingestion: a malformed or unsupported input is
/// recoverable, the previously active cube stays on screen.
#[verifier::ext_equal]
#[derive(Clone, Copy, Debug, PartialEq, Eq, Structural)]
pub enum VisError {
    /// The byte stream is not a cube this viewer can display.
    InvalidCube,
}

/// A parsed data cube: axis extents and a flat sample buffer of
/// `width * height * depth` 32-bit words, little-endian.
#[derive(Clone, Debug)]
pub struct DataCube {
    /// Extent of the first axis, at least 1.
    pub width: u32,
    /// Extent of the second axis, at least 1.
    pub height: u32,
    /// Extent of the third axis, at least 1.
    pub depth: u32,
    /// Exactly `width * height * depth * 4` bytes of sample data.
    pub samples: Vec<u8>,
}

impl DataCube {
    /// Validity of a cube: every extent positive and the sample buffer sized
    /// exactly to the extents, four bytes per sample.
    pub open spec fn wf(self) -> bool {
        &&& 1 <= self.width
        &&& 1 <= self.height
        &&& 1 <= self.depth
        &&& self.samples@.len() == self.width as int * self.height as int * self.depth as int * 4
    }

    /// Build a cube from extents and a sample buffer.
    ///
    /// Succeeds exactly when every extent is at least 1 and the buffer holds
    /// exactly `width * height * depth * 4` bytes; any mismatch is rejected as
    /// `InvalidCube` with no other effect.
    pub fn new(width: u32, height: u32, depth: u32, samples: Vec<u8>) -> (r: Result<DataCube, VisError>)
        ensures
            r is Ok <==> (1 <= width && 1 <= height && 1 <= depth
                && samples@.len() == width as int * height as int * depth as int * 4),
            r matches Ok(c) ==> c.width == width && c.height == height && c.depth == depth
                && c.samples@ == samples@ && c.wf(),
            r matches Err(e) ==> e is InvalidCube,
    {
        proof {
            assert(width as int * height as int <= 0xffff_ffff * 0xffff_ffff) by (nonlinear_arith)
                requires
                    0 <= width <= 0xffff_ffffu64,
                    0 <= height <= 0xffff_ffffu64,
            ;
            assert((width as int * height as int) * (depth as int)
                <= (0xffff_ffff * 0xffff_ffff) * 0xffff_ffff) by (nonlinear_arith)
                requires
                    0 <= width as int * height as int <= 0xffff_ffff * 0xffff_ffff,
                    0 <= depth <= 0xffff_ffffu64,
            ;
        }
        if width >= 1 && height >= 1 && depth >= 1 {
            let need: u128 = width as u128 * height as u128 * depth as u128 * 4;
            if samples.len() as u128 == need {
                Ok(DataCube { width, height, depth, samples })
            } else {
                Err(VisError::InvalidCube)
            }
        } else {
            Err(VisError::InvalidCube)
        }
    }
}

/// What the trusted FITS scanner finds in a screened byte stream: `None` when
/// the stream has no well-formed primary header, otherwise the axis extents
/// the header advertises, its sample format (the BITPIX code: bits per
/// sample, negative for floating point), and the byte offset at which the
/// data block starts.
pub uninterp spec fn fits_primary_scan(bytes: Seq<u8>) -> Option<(Seq<u64>, i64, u64)>;

/// Relies on fitsrs (`Fits::from_reader`, its HDU iterator,
/// `Header::get_xtension`, `Image::get_naxis`, `Image::get_bitpix` and
/// `HDU::get_data_unit_byte_offset`): parses the primary header of a FITS
/// stream and reports the NAXIS extents, the BITPIX code and the data-block
/// offset, a pure function of the bytes; touches no data bytes. The parser's
/// card reader panics on a value field holding a lone quote, and its
/// data-block sizing multiplies the advertised extents in unguarded 64-bit
/// arithmetic, so the screened streams — no lone-quote values, extents within
/// the digit budget — are the ones this call may see.
#[verifier::external_body]
fn scan_fits(bytes: &[u8]) -> (r: Option<(Vec<u64>, i64, u64)>)
    requires
        header_screen_ok(bytes@),
    ensures
        (match r {
            Option::Some((axes, bitpix, off)) => fits_primary_scan(bytes@) == Some(
                (axes@, bitpix, off),
            ),
            Option::None => fits_primary_scan(bytes@) is None,
        }),
{
    let mut fits = fitsrs::Fits::from_reader(std::io::Cursor::new(bytes));
    if let Some(Ok(fitsrs::HDU::Primary(hdu))) = fits.next() {
        let xt = hdu.get_header().get_xtension();
        let (axes, bitpix) = (xt.get_naxis().to_vec(), xt.get_bitpix() as i64);
        Some((axes, bitpix, hdu.get_data_unit_byte_offset()))
    } else {
        None
    }
}

/// The third extent of the cube read from the scanned axes: the third axis,
/// or the fourth one where the third is the degenerate 1.
pub open spec fn scan_depth(axes: Seq<u64>) -> int {
    if axes.len() >= 4 && axes[2] == 1 {
        axes[3] as int
    } else {
        axes[2] as int
    }
}

/// Whether the scanned axes describe extents this viewer accepts: at least
/// three axes, each used extent positive and within the GPU's 32-bit range.
pub open spec fn scan_extents_ok(axes: Seq<u64>) -> bool {
    &&& axes.len() >= 3
    &&& 1 <= axes[0] <= u32::MAX
    &&& 1 <= axes[1] <= u32::MAX
    &&& 1 <= scan_depth(axes) <= u32::MAX
}

/// How many leading axes make up the cube: four when the fourth stands in
/// for a degenerate third, three otherwise.
pub open spec fn used_axes(axes: Seq<u64>) -> int {
    if axes.len() >= 4 && axes[2] == 1 {
        4
    } else {
        3
    }
}

/// Whether every axis beyond the used ones has extent 1. The container's
/// data block holds one sample per point of the product of all axes, so
/// exactly then is the block the cube and nothing else.
pub open spec fn trailing_axes_trivial(axes: Seq<u64>) -> bool {
    forall|i: int| used_axes(axes) <= i < axes.len() ==> axes[i] == 1
}

/// Size in bytes of the data block the extents call for, four per sample.
pub open spec fn scan_byte_count(axes: Seq<u64>) -> int {
    (axes[0] as int * axes[1] as int * scan_depth(axes)) * 4
}

/// Whether a scan is usable against a stream of `len` bytes: 32-bit
/// floating-point samples (the one format the cube model holds), acceptable
/// extents, no real axes beyond the used ones, and a data block that lies
/// entirely within the stream.
pub open spec fn scan_usable(axes: Seq<u64>, bitpix: i64, off: u64, len: int) -> bool {
    &&& bitpix == -32
    &&& scan_extents_ok(axes)
    &&& trailing_axes_trivial(axes)
    &&& off + scan_byte_count(axes) <= len
}

/// The byte sequence with every aligned four-byte word reversed: the
/// big-endian sample words of the container turned little-endian.
pub open spec fn swapped_quads(data: Seq<u8>) -> Seq<u8> {
    Seq::new(data.len(), |i: int| data[4 * (i / 4) + (3 - i % 4)])
}

proof fn lemma_quad_index(q: int, j: int)
    requires
        0 <= q,
        0 <= j < 4,
    ensures
        (4 * q + j) / 4 == q,
        (4 * q + j) % 4 == j,
{
    assert((4 * q + j) / 4 == q && (4 * q + j) % 4 == j) by (nonlinear_arith)
        requires
            0 <= q,
            0 <= j < 4,
    ;
}

/// Decode `count` bytes of big-endian four-byte words starting at `start`
/// into a little-endian buffer.
pub fn decode_samples(bytes: &[u8], start: usize, count: usize) -> (out: Vec<u8>)
    requires
        start + count <= bytes@.len(),
        count % 4 == 0,
    ensures
        out@ == swapped_quads(bytes@.subrange(start as int, start as int + count as int)),
{
    let total: usize = bytes.len();
    assert(start + count <= total);
    let quads: usize = count / 4;
    assert(4 * quads as int == count) by {
        assert(count as int == 4 * (count as int / 4) + count as int % 4);
    };
    let mut out: Vec<u8> = Vec::new();
    let mut q: usize = 0;
    while q < quads
        invariant
            q <= quads,
            4 * quads as int == count,
            start + count <= bytes@.len(),
            start + count <= usize::MAX,
            out@.len() == 4 * q as int,
            forall|i: int|
                0 <= i < 4 * q as int ==> out@[i] == bytes@[start as int + 4 * (i / 4) + (3 - i % 4)],
        decreases quads - q,
    {
        let base = start + 4 * q;
        out.push(*slice_index_get(bytes, base + 3));
        out.push(*slice_index_get(bytes, base + 2));
        out.push(*slice_index_get(bytes, base + 1));
        out.push(*slice_index_get(bytes, base));
        proof {
            lemma_quad_index(q as int, 0);
            lemma_quad_index(q as int, 1);
            lemma_quad_index(q as int, 2);
            lemma_quad_index(q as int, 3);
        }
        q = q + 1;
    }
    proof {
        let sub = bytes@.subrange(start as int, start as int + count as int);
        assert forall|i: int| 0 <= i < count implies out@[i] == swapped_quads(sub)[i] by {
            lemma_quad_index(i / 4, i % 4);
            assert(sub[4 * (i / 4) + (3 - i % 4)] == bytes@[start as int + 4 * (i / 4) + (3 - i % 4)]);
        }
        assert(out@ =~= swapped_quads(sub));
    }
    out
}

/// Parse a FITS byte stream into a data cube.
///
/// The stream first passes the header screen, which keeps out the inputs the
/// container parser cannot handle. A screened stream succeeds exactly when
/// the trusted scan finds a primary header whose sample format, extents and
/// data block are usable; the resulting cube carries those extents and the
/// data block's words decoded to little-endian. Every other input is rejected
/// as `InvalidCube`.
pub fn ingest(bytes: &[u8]) -> (r: Result<DataCube, VisError>)
    ensures
        !header_screen_ok(bytes@) ==> (r matches Err(e) && e is InvalidCube),
        header_screen_ok(bytes@) ==> (match fits_primary_scan(bytes@) {
            Option::None => r matches Err(e) && e is InvalidCube,
            Option::Some(scan) => {
                if scan_usable(scan.0, scan.1, scan.2, bytes@.len() as int) {
                    &&& r matches Ok(c)
                    &&& c.width == scan.0[0]
                    &&& c.height == scan.0[1]
                    &&& c.depth == scan_depth(scan.0)
                    &&& c.samples@ == swapped_quads(
                        bytes@.subrange(scan.2 as int, scan.2 + scan_byte_count(scan.0)),
                    )
                    &&& c.wf()
                } else {
                    r matches Err(e) && e is InvalidCube
                }
            },
        }),
{
    if !screen_header(bytes) {
        return Err(VisError::InvalidCube);
    }
    match scan_fits(bytes) {
        None => Err(VisError::InvalidCube),
        Some((axes, bitpix, off)) => {
            if bitpix != -32 || axes.len() < 3 {
                return Err(VisError::InvalidCube);
            }
            let w: u64 = axes[0];
            let h: u64 = axes[1];
            let used: usize = if axes[2] == 1 && axes.len() >= 4 {
                4
            } else {
                3
            };
            let d: u64 = if used == 4 {
                axes[3]
            } else {
                axes[2]
            };
            if w < 1 || w > 0xffff_ffff || h < 1 || h > 0xffff_ffff || d < 1 || d > 0xffff_ffff {
                return Err(VisError::InvalidCube);
            }
            let mut t: usize = used;
            #[verifier::loop_isolation(false)]
            while t < axes.len()
                invariant
                    used <= t <= axes@.len(),
                    used as int == used_axes(axes@),
                    forall|m: int| used <= m < t ==> axes@[m] == 1,
                decreases axes@.len() - t,
            {
                if axes[t] != 1 {
                    proof {
                        assert(!trailing_axes_trivial(axes@));
                    }
                    return Err(VisError::InvalidCube);
                }
                t = t + 1;
            }
            proof {
                assert(w as int * h as int <= 0xffff_ffff * 0xffff_ffff) by (nonlinear_arith)
                    requires
                        0 <= w <= 0xffff_ffffu64,
                        0 <= h <= 0xffff_ffffu64,
                ;
                assert((w as int * h as int) * (d as int)
                    <= (0xffff_ffff * 0xffff_ffff) * 0xffff_ffff) by (nonlinear_arith)
                    requires
                        0 <= w as int * h as int <= 0xffff_ffff * 0xffff_ffff,
                        0 <= d <= 0xffff_ffffu64,
                ;
            }
            let need: u128 = (w as u128 * h as u128 * d as u128) * 4;
            if off as u128 > bytes.len() as u128 || need > bytes.len() as u128 - off as u128 {
                return Err(VisError::InvalidCube);
            }
            let start: usize = off as usize;
            let count: usize = need as usize;
            proof {
                assert(count as int % 4 == 0) by (nonlinear_arith)
                    requires
                        count as int == (w as int * h as int * d as int) * 4,
                ;
            }
            let samples = decode_samples(bytes, start, count);
            DataCube::new(w as u32, h as u32, d as u32, samples)
        },
    }
}

} // verus!
