//! Exam profiles: the per-document rules and how a document-type tag picks one.

use vstd::prelude::*;

verus! {

/// The codec a document is written in.
#[derive(Clone, Copy, Debug, PartialEq, Eq, Structural)]
pub enum Codec {
    Jpeg,
    Png,
}

/// The codec a rule's format name stands for: "PNG" is PNG, every other name is JPEG.
pub open spec fn codec_named(name: Seq<char>) -> Codec {
    if name == "PNG"@ {
        Codec::Png
    } else {
        Codec::Jpeg
    }
}

impl Codec {
    /// Reads a format name as it appears in a profile.
    pub fn from_name(name: &str) -> (r: Codec)
        ensures
            r == codec_named(name@),
    {
        if name.to_owned() == "PNG".to_owned() {
            Codec::Png
        } else {
            Codec::Jpeg
        }
    }
}

/// The category of document a tag selects.
#[derive(Clone, Copy, Debug, PartialEq, Eq, Structural)]
pub enum DocumentKind {
    Photo,
    Signature,
    Documents,
}

/// The category of a document-type tag: "photo" and "signature" match exactly,
/// every other tag is a generic document.
pub open spec fn kind_of(tag: Seq<char>) -> DocumentKind {
    if tag == "photo"@ {
        DocumentKind::Photo
    } else if tag == "signature"@ {
        DocumentKind::Signature
    } else {
        DocumentKind::Documents
    }
}

impl DocumentKind {
    /// Resolves a document-type tag, case-sensitively.
    pub fn from_tag(tag: &str) -> (r: DocumentKind)
        ensures
            r == kind_of(tag@),
    {
        let owned = tag.to_owned();
        if owned == "photo".to_owned() {
            DocumentKind::Photo
        } else if owned == "signature".to_owned() {
            DocumentKind::Signature
        } else {
            DocumentKind::Documents
        }
    }
}

/// The output contract for one document type.
#[derive(Clone, Copy, Debug, PartialEq, Eq, Structural)]
pub struct DocumentFormat {
    pub width: u32,
    pub height: u32,
    pub dpi: u32,
    pub format: Codec,
    pub quality: u8,
    /// Ceiling on the encoded size, in kilobytes.
    pub max_size: u32,
}

/// The rules of a profile, one per document category.
#[derive(Clone, Copy, Debug, PartialEq, Eq, Structural)]
pub struct ExamFormats {
    pub photo: DocumentFormat,
    pub signature: DocumentFormat,
    pub documents: DocumentFormat,
}

impl ExamFormats {
    pub open spec fn spec_rule_for(&self, kind: DocumentKind) -> DocumentFormat {
        match kind {
            DocumentKind::Photo => self.photo,
            DocumentKind::Signature => self.signature,
            DocumentKind::Documents => self.documents,
        }
    }

    /// The rule for one document category.
    pub fn rule_for(&self, kind: DocumentKind) -> (r: &DocumentFormat)
        ensures
            *r == self.spec_rule_for(kind),
    {
        match kind {
            DocumentKind::Photo => &self.photo,
            DocumentKind::Signature => &self.signature,
            DocumentKind::Documents => &self.documents,
        }
    }
}

/// An exam's profile: its rules and what it accepts as upload.
#[derive(Clone, Debug)]
pub struct ExamConfig {
    pub name: String,
    pub code: String,
    pub formats: ExamFormats,
    /// Largest upload accepted, in kilobytes.
    pub max_file_size: u32,
    /// MIME types accepted as upload.
    pub allowed_formats: Vec<String>,
    pub document_types: Vec<String>,
}

impl ExamConfig {
    /// The rule that applies to a document-type tag.
    pub open spec fn spec_resolve(&self, tag: Seq<char>) -> DocumentFormat {
        self.formats.spec_rule_for(kind_of(tag))
    }

    /// Picks the rule for a document-type tag; unknown tags get the generic
    /// document rule.
    pub fn resolve(&self, document_type: &str) -> (r: &DocumentFormat)
        ensures
            *r == self.spec_resolve(document_type@),
    {
        self.formats.rule_for(DocumentKind::from_tag(document_type))
    }
}

/// What a caller hands over for one document.
#[derive(Clone, Debug)]
pub struct ProcessingOptions {
    pub exam_config: ExamConfig,
    pub document_type: String,
    /// A size ceiling in kilobytes that the caller asks for, if any.
    pub target_size_kb: Option<u32>,
}

/// Every tag that is neither "photo" nor "signature" gets the same rule as
/// the tag "documents".
pub proof fn lemma_unknown_tag_is_generic(config: ExamConfig, tag: Seq<char>)
    requires
        tag != "photo"@,
        tag != "signature"@,
    ensures
        config.spec_resolve(tag) == config.spec_resolve("documents"@),
        config.spec_resolve(tag) == config.formats.documents,
{
    reveal_strlit("documents");
    reveal_strlit("photo");
    reveal_strlit("signature");
    assert("documents"@.len() != "photo"@.len());
    assert("documents"@[0] != "signature"@[0]);
}

} // verus!
