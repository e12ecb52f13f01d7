//! The transcoding pipeline: decode, resize to the rule's exact dimensions,
//! encode, and search downwards in quality until the size budget is met or
//! the quality floor is reached.

use crate::config::{Codec, DocumentFormat, ExamConfig};
use crate::imaging::{
    decoded, dimensions_of, encoding, load_from_memory, resize_exact, resized, write_to,
    MAX_DIMENSION,
};
use crate::quality::{decayed, lemma_decay_decreases, next_quality, QUALITY_CEILING, QUALITY_FLOOR};
use image::DynamicImage;
use vstd::prelude::*;

verus! {

/// Why a document could not be formatted.
#[derive(Clone, Copy, Debug, PartialEq, Eq, Structural)]
pub enum FormatError {
    /// No profile was set before the call.
    NoConfig,
    /// The input bytes are not an image the codec library recognises.
    Decode,
    /// The codec failed to write the image.
    Encode,
}

/// The size budget of a rule, in bytes.
pub open spec fn target_bytes(max_size_kb: u32) -> int {
    max_size_kb as int * 1024
}

impl Codec {
    /// What the encoder is handed for this codec: a JPEG quality, or nothing
    /// for PNG, which is lossless and has no quality setting.
    pub open spec fn spec_jpeg_quality(self, quality: u8) -> Option<u8> {
        match self {
            Codec::Jpeg => Some(quality),
            Codec::Png => None,
        }
    }

    pub fn jpeg_quality(self, quality: u8) -> (r: Option<u8>)
        ensures
            r == self.spec_jpeg_quality(quality),
    {
        match self {
            Codec::Jpeg => Some(quality),
            Codec::Png => None,
        }
    }
}

impl DocumentFormat {
    /// The rule's dimensions can be resampled to.
    pub open spec fn spec_within_limits(&self) -> bool {
        self.width <= MAX_DIMENSION && self.height <= MAX_DIMENSION
    }

    pub fn within_limits(&self) -> (r: bool)
        ensures
            r == self.spec_within_limits(),
    {
        self.width <= MAX_DIMENSION && self.height <= MAX_DIMENSION
    }
}

/// The size search from quality `q` on: encode, and stop at the first encoding
/// that fits `target` or once `q` is at the floor; otherwise decay `q` and go
/// on. The result is the accepted bytes and the quality they were written at.
pub open spec fn searched(img: DynamicImage, codec: Codec, target: int, q: u8) -> Option<(Seq<u8>, u8)>
    decreases q,
{
    match encoding(img, codec.spec_jpeg_quality(q)) {
        None => None,
        Some(bytes) => if bytes.len() <= target || q <= QUALITY_FLOOR {
            Some((bytes, q))
        } else {
            searched(img, codec, target, decayed(q))
        },
    }
}

/// The image a rule asks for, made from the raw bytes.
pub open spec fn resized_for(img: DynamicImage, rule: DocumentFormat) -> DynamicImage {
    resized(img, rule.width, rule.height)
}

/// The first encoding of the resized image, at the rule's own quality.
pub open spec fn first_encoding(raw: Seq<u8>, rule: DocumentFormat) -> Option<Seq<u8>> {
    match decoded(raw) {
        Some(img) => encoding(resized_for(img, rule), rule.format.spec_jpeg_quality(rule.quality)),
        None => None,
    }
}

/// What formatting `raw` under `rule` yields: the first encoding where it fits
/// the budget, else the outcome of the size search from the ceiling.
pub open spec fn transcoded(raw: Seq<u8>, rule: DocumentFormat) -> Result<Seq<u8>, FormatError> {
    match decoded(raw) {
        None => Err(FormatError::Decode),
        Some(img) => match first_encoding(raw, rule) {
            None => Err(FormatError::Encode),
            Some(first) => if first.len() <= target_bytes(rule.max_size) {
                Ok(first)
            } else {
                match searched(resized_for(img, rule), rule.format, target_bytes(rule.max_size), QUALITY_CEILING) {
                    Some(found) => Ok(found.0),
                    None => Err(FormatError::Encode),
                }
            },
        },
    }
}

/// Formats raw image bytes under one rule.
pub fn transcode(raw: &[u8], rule: &DocumentFormat) -> (r: Result<Vec<u8>, FormatError>)
    requires
        rule.spec_within_limits(),
    ensures
        match r {
            Ok(bytes) => transcoded(raw@, *rule) == Ok::<Seq<u8>, FormatError>(bytes@),
            Err(e) => transcoded(raw@, *rule) == Err::<Seq<u8>, FormatError>(e),
        },
        r is Ok ==> exists|img: DynamicImage, q: u8|
            dimensions_of(img) == (rule.width, rule.height) && encoding(
                img,
                rule.format.spec_jpeg_quality(q),
            ) == Some(r->Ok_0@),
{
    let img = match load_from_memory(raw) {
        Ok(img) => img,
        Err(_) => return Err(FormatError::Decode),
    };
    let small = resize_exact(&img, rule.width, rule.height);
    let first = match write_to(&small, rule.format.jpeg_quality(rule.quality)) {
        Ok(bytes) => bytes,
        Err(_) => return Err(FormatError::Encode),
    };
    let target: u64 = rule.max_size as u64 * 1024;
    if first.len() as u64 <= target {
        assert(dimensions_of(small) == (rule.width, rule.height) && encoding(
            small,
            rule.format.spec_jpeg_quality(rule.quality),
        ) == Some(first@));
        return Ok(first);
    }
    match compress_to_target_size(&small, target, rule.format) {
        Ok(found) => {
            proof {
                lemma_search_yields_an_encoding(small, rule.format, target as int, QUALITY_CEILING);
                assert(dimensions_of(small) == (rule.width, rule.height) && encoding(
                    small,
                    rule.format.spec_jpeg_quality(found.1),
                ) == Some(found.0@));
            }
            Ok(found.0)
        },
        Err(e) => Err(e),
    }
}

/// Re-encodes `img` at decaying quality from the ceiling until the bytes fit
/// `target_size` or the quality floor is reached; returns the bytes and the
/// quality they were written at.
fn compress_to_target_size(img: &DynamicImage, target_size: u64, codec: Codec) -> (r: Result<(Vec<u8>, u8), FormatError>)
    ensures
        match r {
            Ok(found) => searched(*img, codec, target_size as int, QUALITY_CEILING) == Some((found.0@, found.1)),
            Err(e) => e == FormatError::Encode && searched(*img, codec, target_size as int, QUALITY_CEILING) is None,
        },
{
    let mut quality: u8 = QUALITY_CEILING;
    loop
        invariant
            quality >= QUALITY_FLOOR,
            searched(*img, codec, target_size as int, QUALITY_CEILING) == searched(*img, codec, target_size as int, quality),
        decreases quality,
    {
        let bytes = match write_to(img, codec.jpeg_quality(quality)) {
            Ok(bytes) => bytes,
            Err(_) => return Err(FormatError::Encode),
        };
        if bytes.len() as u64 <= target_size || quality <= QUALITY_FLOOR {
            return Ok((bytes, quality));
        }
        proof {
            lemma_decay_decreases(quality);
        }
        quality = next_quality(quality);
    }
}

/// Formats uploads under the profile that was set last.
pub struct DocumentFormatter {
    pub config: Option<ExamConfig>,
}

impl DocumentFormatter {
    /// A formatter with no profile yet.
    pub fn new() -> (r: DocumentFormatter)
        ensures
            r.config is None,
    {
        DocumentFormatter { config: None }
    }

    /// Replaces the profile that later calls format under.
    pub fn set_config(&mut self, config: ExamConfig)
        ensures
            final(self).config == Some(config),
    {
        self.config = Some(config);
    }

    /// The rule that a document-type tag resolves to can be applied.
    pub open spec fn spec_admits(&self, document_type: Seq<char>) -> bool {
        match self.config {
            Some(config) => config.spec_resolve(document_type).spec_within_limits(),
            None => true,
        }
    }

    pub fn admits(&self, document_type: &str) -> (r: bool)
        ensures
            r == self.spec_admits(document_type@),
    {
        match &self.config {
            Some(config) => config.resolve(document_type).within_limits(),
            None => true,
        }
    }

    /// Formats an uploaded image as the rule for `document_type` asks.
    /// `original_name` serves tracing only and has no effect on the result.
    /// Without a profile the call fails before it looks at the bytes.
    pub fn format_document(&self, file_data: &[u8], document_type: &str, _original_name: &str) -> (r: Result<Vec<u8>, FormatError>)
        requires
            self.spec_admits(document_type@),
        ensures
            match self.config {
                None => r == Err::<Vec<u8>, FormatError>(FormatError::NoConfig),
                Some(config) => match r {
                    Ok(bytes) => transcoded(file_data@, config.spec_resolve(document_type@))
                        == Ok::<Seq<u8>, FormatError>(bytes@),
                    Err(e) => transcoded(file_data@, config.spec_resolve(document_type@))
                        == Err::<Seq<u8>, FormatError>(e),
                },
            },
            r is Ok ==> exists|img: DynamicImage, q: u8|
                dimensions_of(img) == (
                    self.config->0.spec_resolve(document_type@).width,
                    self.config->0.spec_resolve(document_type@).height,
                ) && encoding(
                    img,
                    self.config->0.spec_resolve(document_type@).format.spec_jpeg_quality(q),
                ) == Some(r->Ok_0@),
    {
        let config = match &self.config {
            Some(config) => config,
            None => return Err(FormatError::NoConfig),
        };
        let rule = config.resolve(document_type);
        transcode(file_data, rule)
    }
}

/// What the size search accepts is the encoding of the image at the quality
/// it reports.
pub proof fn lemma_search_yields_an_encoding(img: DynamicImage, codec: Codec, target: int, q: u8)
    ensures
        searched(img, codec, target, q) matches Some(found) ==> encoding(
            img,
            codec.spec_jpeg_quality(found.1),
        ) == Some(found.0),
    decreases q,
{
    match encoding(img, codec.spec_jpeg_quality(q)) {
        Some(bytes) => {
            if !(bytes.len() <= target || q <= QUALITY_FLOOR) {
                lemma_decay_decreases(q);
                lemma_search_yields_an_encoding(img, codec, target, decayed(q));
            }
        },
        None => {},
    }
}

/// The size search never gives up silently: what it accepts fits the budget,
/// or was written at the quality floor.
pub proof fn lemma_search_fits_or_hits_floor(img: DynamicImage, codec: Codec, target: int, q: u8)
    requires
        q >= QUALITY_FLOOR,
    ensures
        searched(img, codec, target, q) matches Some(found) ==> found.0.len() <= target
            || found.1 == QUALITY_FLOOR,
    decreases q,
{
    match encoding(img, codec.spec_jpeg_quality(q)) {
        Some(bytes) => {
            if !(bytes.len() <= target || q <= QUALITY_FLOOR) {
                lemma_decay_decreases(q);
                lemma_search_fits_or_hits_floor(img, codec, target, decayed(q));
            }
        },
        None => {},
    }
}

/// Where the first encoding already fits the budget, formatting returns exactly
/// those bytes, with no further encoding pass.
pub proof fn lemma_fitting_first_encoding_is_kept(raw: Seq<u8>, rule: DocumentFormat, first: Seq<u8>)
    requires
        first_encoding(raw, rule) == Some(first),
        first.len() <= target_bytes(rule.max_size),
    ensures
        transcoded(raw, rule) == Ok::<Seq<u8>, FormatError>(first),
{
}

/// Under a PNG rule the encoder has no quality to vary, so once the first
/// encoding is over budget the search runs down to the floor and returns those
/// same bytes again: over budget, and the same on every call.
pub proof fn lemma_png_over_budget_returns_first_encoding(raw: Seq<u8>, rule: DocumentFormat, first: Seq<u8>)
    requires
        rule.format == Codec::Png,
        first_encoding(raw, rule) == Some(first),
        first.len() > target_bytes(rule.max_size),
    ensures
        searched(
            resized_for(decoded(raw)->0, rule),
            Codec::Png,
            target_bytes(rule.max_size),
            QUALITY_CEILING,
        ) == Some((first, QUALITY_FLOOR)),
        transcoded(raw, rule) == Ok::<Seq<u8>, FormatError>(first),
{
    lemma_png_search_runs_to_floor(
        resized_for(decoded(raw)->0, rule),
        target_bytes(rule.max_size),
        QUALITY_CEILING,
        first,
    );
}

proof fn lemma_png_search_runs_to_floor(img: DynamicImage, target: int, q: u8, first: Seq<u8>)
    requires
        q >= QUALITY_FLOOR,
        encoding(img, None) == Some(first),
        first.len() > target,
    ensures
        searched(img, Codec::Png, target, q) == Some((first, QUALITY_FLOOR)),
    decreases q,
{
    if q > QUALITY_FLOOR {
        lemma_decay_decreases(q);
        lemma_png_search_runs_to_floor(img, target, decayed(q), first);
    }
}

} // verus!
