//! Pixel-to-glyph mapping and the three conversion strategies.
//!
//! `AsciiConverter` maps each 8-bit intensity sample to one character of a
//! fixed 29-entry palette by integer scaling, and offers three strategies
//! that traverse a whole image buffer: a sequential scan, a data-parallel
//! map, and a parallel map over row-sized chunks. All three are performance
//! variants of one specification and produce identical output.

use vstd::prelude::*;

use crate::image_buffer::ImageBuffer;
use rayon::iter::IntoParallelRefIterator;
use rayon::iter::ParallelIterator;
use rayon::slice::ParallelSlice;

verus! {

/// The three interchangeable conversion strategies.
#[derive(Clone, Copy, Debug, PartialEq, Eq, Structural)]
pub enum AsciiConversionMethod {
    SingleThreadedLoop,
    RayonThreadedLoop,
    RayonThreadedChunkedLoop,
}

impl AsciiConversionMethod {
    /// The strategy behind a 1-based menu position, in declaration order;
    /// `None` for a position the menu does not offer.
    pub fn from_menu_index(index: usize) -> (method: Option<AsciiConversionMethod>)
        ensures
            method == if index == 1 {
                Some(AsciiConversionMethod::SingleThreadedLoop)
            } else if index == 2 {
                Some(AsciiConversionMethod::RayonThreadedLoop)
            } else if index == 3 {
                Some(AsciiConversionMethod::RayonThreadedChunkedLoop)
            } else {
                None::<AsciiConversionMethod>
            },
    {
        match index {
            1 => Some(AsciiConversionMethod::SingleThreadedLoop),
            2 => Some(AsciiConversionMethod::RayonThreadedLoop),
            3 => Some(AsciiConversionMethod::RayonThreadedChunkedLoop),
            _ => None,
        }
    }
}

/// Why a conversion request was rejected or abandoned.
#[derive(Clone, Copy, Debug, PartialEq, Eq, Structural)]
pub enum ConversionError {
    /// The image buffer is absent, zero-dimensioned, or does not hold
    /// exactly one sample per pixel: fatal to this request, never retried.
    PreconditionFailure,
    /// A worker pool could not be allocated for a parallel strategy.
    ResourceExhaustion,
}

pub struct AsciiConverter;

impl AsciiConverter {
    /// The fixed palette, index 0 for the darkest samples through index 28
    /// for the brightest.
    pub open spec fn palette() -> Seq<char> {
        seq![
            '.', '`', '^', ',', ':', ';', '!', '>', '<', '~', '+', '_', '-', '?', ']', '[', '}',
            '{', ')', '(', '|', '\\', '/', '*', '#', '&', '%', '@', '$',
        ]
    }

    /// The palette bucket a sample falls in: the 256 intensity values are
    /// split into 29 near-equal contiguous buckets by integer scaling.
    pub open spec fn bucket_of(pixel: u8) -> int {
        (pixel as int) * 29 / 256
    }

    /// The glyph a single sample maps to.
    pub open spec fn glyph_of(pixel: u8) -> char {
        Self::palette()[Self::bucket_of(pixel)]
    }

    /// The glyph sequence for a whole sample sequence, in sample order.
    pub open spec fn glyphs_of(samples: Seq<u8>) -> Seq<char> {
        samples.map_values(|pixel: u8| Self::glyph_of(pixel))
    }

    /// The palette bucket for one sample. Total over the whole 0-255
    /// domain, and always a valid palette index.
    pub fn bucket_index(pixel: u8) -> (index: usize)
        ensures
            index == Self::bucket_of(pixel),
            index < 29,
    {
        let index: usize = (pixel as usize) * 29 / 256;
        index
    }

    /// Maps one intensity sample to its palette glyph: deterministic, pure,
    /// and total over 0-255.
    pub fn convert_pixel_to_ascii(pixel: u8) -> (glyph: char)
        ensures
            glyph == Self::glyph_of(pixel),
            Self::palette().contains(glyph),
    {
        proof {
            assert(Self::palette()[Self::bucket_of(pixel)] == Self::glyph_of(pixel));
        }
        let index = Self::bucket_index(pixel);
        match index {
            0 => '.',
            1 => '`',
            2 => '^',
            3 => ',',
            4 => ':',
            5 => ';',
            6 => '!',
            7 => '>',
            8 => '<',
            9 => '~',
            10 => '+',
            11 => '_',
            12 => '-',
            13 => '?',
            14 => ']',
            15 => '[',
            16 => '}',
            17 => '{',
            18 => ')',
            19 => '(',
            20 => '|',
            21 => '\\',
            22 => '/',
            23 => '*',
            24 => '#',
            25 => '&',
            26 => '%',
            27 => '@',
            _ => '$',
        }
    }

    /// The glyph sequence that the row-chunked traversal produces: the
    /// samples are split into consecutive chunks of `width` (the last chunk
    /// may be shorter), each chunk is mapped on its own, and the chunk
    /// results are concatenated in original chunk order.
    pub open spec fn chunked_glyphs(samples: Seq<u8>, width: int) -> Seq<char>
        decreases samples.len(),
    {
        if width < 1 {
            Seq::empty()
        } else if samples.len() <= width {
            Self::glyphs_of(samples)
        } else {
            Self::glyphs_of(samples.take(width)) + Self::chunked_glyphs(
                samples.skip(width),
                width,
            )
        }
    }

    /// Cross-strategy equivalence: the row-chunked traversal yields exactly
    /// the flat row-major glyph sequence, whatever the chunk width. Since
    /// the sequential and the data-parallel strategies return that flat
    /// sequence directly, all three strategies produce identical output on
    /// the same samples.
    pub proof fn lemma_cross_strategy_equivalence(samples: Seq<u8>, width: int)
        requires
            width >= 1,
        ensures
            Self::chunked_glyphs(samples, width) == Self::glyphs_of(samples),
        decreases samples.len(),
    {
        if samples.len() > width {
            Self::lemma_cross_strategy_equivalence(samples.skip(width), width);
            assert(Self::glyphs_of(samples.take(width)) + Self::glyphs_of(samples.skip(width))
                =~= Self::glyphs_of(samples));
        }
    }

    /// Every strategy's output is a function of the samples alone: any two
    /// runs over the same samples, by the same or by different strategies,
    /// yield identical glyph sequences.
    pub proof fn lemma_deterministic(first: Seq<char>, second: Seq<char>, samples: Seq<u8>)
        requires
            first == Self::glyphs_of(samples),
            second == Self::glyphs_of(samples),
        ensures
            first == second,
    {
    }

    /// Strategy A: scan the samples one at a time in row-major order and
    /// map each through the palette. Returns one glyph per pixel, or
    /// `PreconditionFailure` on a malformed buffer.
    pub fn single_threaded_loop(img: &ImageBuffer) -> (result: Result<
        Vec<char>,
        ConversionError,
    >)
        ensures
            img.well_formed() ==> (result matches Ok(glyphs) && glyphs@ == Self::glyphs_of(
                img.samples@,
            ) && glyphs@.len() == img.width * img.height),
            !img.well_formed() ==> result == Err::<Vec<char>, ConversionError>(
                ConversionError::PreconditionFailure,
            ),
    {
        if !img.is_well_formed() {
            return Err(ConversionError::PreconditionFailure);
        }
        let pixel_count = img.samples.len();
        let mut glyphs: Vec<char> = Vec::with_capacity(pixel_count);
        for i in 0..pixel_count
            invariant
                pixel_count == img.samples@.len(),
                glyphs@ == Self::glyphs_of(img.samples@.take(i as int)),
        {
            glyphs.push(Self::convert_pixel_to_ascii(img.samples[i]));
            proof {
                assert(glyphs@ =~= Self::glyphs_of(img.samples@.take(i + 1)));
            }
        }
        proof {
            assert(img.samples@.take(pixel_count as int) =~= img.samples@);
        }
        Ok(glyphs)
    }

    /// Maps every sample of one row chunk through the palette, in chunk
    /// order. The unit of work that each worker of the chunked strategy
    /// performs on its own row.
    pub fn chunk_to_ascii(chunk: &[u8]) -> (glyphs: Vec<char>)
        ensures
            glyphs@ == Self::glyphs_of(chunk@),
    {
        let chunk_len = chunk.len();
        let mut glyphs: Vec<char> = Vec::with_capacity(chunk_len);
        for i in 0..chunk_len
            invariant
                chunk_len == chunk@.len(),
                glyphs@ == Self::glyphs_of(chunk@.take(i as int)),
        {
            glyphs.push(Self::convert_pixel_to_ascii(chunk[i]));
            proof {
                assert(glyphs@ =~= Self::glyphs_of(chunk@.take(i + 1)));
            }
        }
        proof {
            assert(chunk@.take(chunk_len as int) =~= chunk@);
        }
        glyphs
    }

    /// Strategy B: materialize the samples as a random-access collection
    /// (the buffer already is one) and map them in parallel, with output
    /// order restored to input order. Same contract as the sequential
    /// strategy.
    pub fn rayon_threaded_loop(img: &ImageBuffer) -> (result: Result<
        Vec<char>,
        ConversionError,
    >)
        ensures
            img.well_formed() ==> (result matches Ok(glyphs) && glyphs@ == Self::glyphs_of(
                img.samples@,
            ) && glyphs@.len() == img.width * img.height),
            !img.well_formed() ==> result == Err::<Vec<char>, ConversionError>(
                ConversionError::PreconditionFailure,
            ),
    {
        if !img.is_well_formed() {
            return Err(ConversionError::PreconditionFailure);
        }
        Ok(par_map_to_ascii(&img.samples))
    }

    /// Strategy C: split the flat sample buffer into row-sized chunks, map
    /// the chunks in parallel, and concatenate the per-chunk results in
    /// original row order. Same contract as the sequential strategy.
    pub fn rayon_threaded_chunked_loop(img: &ImageBuffer) -> (result: Result<
        Vec<char>,
        ConversionError,
    >)
        ensures
            img.well_formed() ==> (result matches Ok(glyphs) && glyphs@ == Self::glyphs_of(
                img.samples@,
            ) && glyphs@.len() == img.width * img.height),
            !img.well_formed() ==> result == Err::<Vec<char>, ConversionError>(
                ConversionError::PreconditionFailure,
            ),
    {
        if !img.is_well_formed() {
            return Err(ConversionError::PreconditionFailure);
        }
        let glyphs = par_chunks_to_ascii(&img.samples, img.width);
        proof {
            Self::lemma_cross_strategy_equivalence(img.samples@, img.width as int);
        }
        Ok(glyphs)
    }

    /// Runs the strategy that `method` selects on `img`, the single
    /// dispatch point for the three variants. An absent buffer is a
    /// precondition failure, exactly as a malformed one is.
    pub fn convert(img: Option<&ImageBuffer>, method: AsciiConversionMethod) -> (result: Result<
        Vec<char>,
        ConversionError,
    >)
        ensures
            match img {
                None => result == Err::<Vec<char>, ConversionError>(
                    ConversionError::PreconditionFailure,
                ),
                Some(buffer) => {
                    &&& buffer.well_formed() ==> (result matches Ok(glyphs) && glyphs@
                        == Self::glyphs_of(buffer.samples@) && glyphs@.len() == buffer.width
                        * buffer.height)
                    &&& !buffer.well_formed() ==> result == Err::<Vec<char>, ConversionError>(
                        ConversionError::PreconditionFailure,
                    )
                },
            },
    {
        match img {
            None => Err(ConversionError::PreconditionFailure),
            Some(buffer) => match method {
                AsciiConversionMethod::SingleThreadedLoop => Self::single_threaded_loop(buffer),
                AsciiConversionMethod::RayonThreadedLoop => Self::rayon_threaded_loop(buffer),
                AsciiConversionMethod::RayonThreadedChunkedLoop => Self::rayon_threaded_chunked_loop(
                    buffer,
                ),
            },
        }
    }

    /// Samples map to palette buckets monotonically: a brighter sample
    /// never falls in an earlier bucket than a darker one.
    pub proof fn lemma_bucket_monotonic(a: u8, b: u8)
        requires
            a <= b,
        ensures
            Self::bucket_of(a) <= Self::bucket_of(b),
    {
        vstd::arithmetic::div_mod::lemma_div_is_ordered(a as int * 29, b as int * 29, 256);
    }
}

/// Relies on rayon's `par_iter().map(..).collect::<Vec<_>>()`: on a slice
/// this is an indexed parallel map whose collected result keeps the input
/// order, so element `i` of the output is the closure applied to sample
/// `i`; the closure only calls the verified `convert_pixel_to_ascii`.
#[verifier::external_body]
fn par_map_to_ascii(samples: &Vec<u8>) -> (glyphs: Vec<char>)
    ensures
        glyphs@ == AsciiConverter::glyphs_of(samples@),
{
    samples.par_iter().map(|&pixel| AsciiConverter::convert_pixel_to_ascii(pixel)).collect()
}

/// Relies on rayon's `par_chunks(width)`, which yields the consecutive
/// `width`-sized chunks of the slice in order (the last may be shorter)
/// and panics on a zero width, and on `flat_map(..).collect::<Vec<_>>()`,
/// which concatenates the per-chunk results in original chunk order; the
/// closure only calls the verified `chunk_to_ascii`.
#[verifier::external_body]
fn par_chunks_to_ascii(samples: &Vec<u8>, width: usize) -> (glyphs: Vec<char>)
    requires
        width >= 1,
    ensures
        glyphs@ == AsciiConverter::chunked_glyphs(samples@, width as int),
{
    samples.par_chunks(width).flat_map(|chunk| AsciiConverter::chunk_to_ascii(chunk)).collect()
}

} // verus!
