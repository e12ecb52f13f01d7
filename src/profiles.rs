//! Two exam profiles, ready to load into a formatter.

use crate::config::{Codec, DocumentFormat, ExamConfig, ExamFormats};
use vstd::prelude::*;

verus! {

/// The characters of each string in a list.
pub open spec fn strings_of(list: Seq<String>) -> Seq<Seq<char>> {
    list.map_values(|s: String| s@)
}

/// The rules of the UPSC profile; every one writes JPEG.
pub open spec fn upsc_formats() -> ExamFormats {
    ExamFormats {
        photo: DocumentFormat {
            width: 300,
            height: 400,
            dpi: 300,
            format: Codec::Jpeg,
            quality: 85,
            max_size: 200,
        },
        signature: DocumentFormat {
            width: 300,
            height: 100,
            dpi: 300,
            format: Codec::Jpeg,
            quality: 85,
            max_size: 50,
        },
        documents: DocumentFormat {
            width: 800,
            height: 1200,
            dpi: 200,
            format: Codec::Jpeg,
            quality: 80,
            max_size: 500,
        },
    }
}

/// The profile of the UPSC exam.
pub fn get_upsc_config() -> (r: ExamConfig)
    ensures
        r.name@ == "UPSC"@,
        r.code@ == "upsc"@,
        r.formats == upsc_formats(),
        r.max_file_size == 2048,
        strings_of(r.allowed_formats@) == seq!["image/jpeg"@, "image/png"@],
        strings_of(r.document_types@) == seq!["photo"@, "signature"@, "aadhaar"@, "marksheet"@],
{
    let allowed_formats = vec!["image/jpeg".to_owned(), "image/png".to_owned()];
    let document_types = vec![
        "photo".to_owned(),
        "signature".to_owned(),
        "aadhaar".to_owned(),
        "marksheet".to_owned(),
    ];
    let r = ExamConfig {
        name: "UPSC".to_owned(),
        code: "upsc".to_owned(),
        formats: ExamFormats {
            photo: DocumentFormat {
                width: 300,
                height: 400,
                dpi: 300,
                format: Codec::Jpeg,
                quality: 85,
                max_size: 200,
            },
            signature: DocumentFormat {
                width: 300,
                height: 100,
                dpi: 300,
                format: Codec::Jpeg,
                quality: 85,
                max_size: 50,
            },
            documents: DocumentFormat {
                width: 800,
                height: 1200,
                dpi: 200,
                format: Codec::Jpeg,
                quality: 80,
                max_size: 500,
            },
        },
        max_file_size: 2048,
        allowed_formats,
        document_types,
    };
    assert(strings_of(r.allowed_formats@) =~= seq!["image/jpeg"@, "image/png"@]);
    assert(strings_of(r.document_types@) =~= seq!["photo"@, "signature"@, "aadhaar"@, "marksheet"@]);
    r
}

/// The rules of the NEET profile; every one writes JPEG.
pub open spec fn neet_formats() -> ExamFormats {
    ExamFormats {
        photo: DocumentFormat {
            width: 200,
            height: 230,
            dpi: 200,
            format: Codec::Jpeg,
            quality: 80,
            max_size: 100,
        },
        signature: DocumentFormat {
            width: 200,
            height: 80,
            dpi: 200,
            format: Codec::Jpeg,
            quality: 80,
            max_size: 30,
        },
        documents: DocumentFormat {
            width: 600,
            height: 800,
            dpi: 150,
            format: Codec::Jpeg,
            quality: 75,
            max_size: 300,
        },
    }
}

/// The profile of the NEET exam.
pub fn get_neet_config() -> (r: ExamConfig)
    ensures
        r.name@ == "NEET"@,
        r.code@ == "neet"@,
        r.formats == neet_formats(),
        r.max_file_size == 1024,
        strings_of(r.allowed_formats@) == seq!["image/jpeg"@, "image/png"@],
        strings_of(r.document_types@) == seq!["photo"@, "signature"@, "class10_marksheet"@, "class12_marksheet"@],
{
    let allowed_formats = vec!["image/jpeg".to_owned(), "image/png".to_owned()];
    let document_types = vec![
        "photo".to_owned(),
        "signature".to_owned(),
        "class10_marksheet".to_owned(),
        "class12_marksheet".to_owned(),
    ];
    let r = ExamConfig {
        name: "NEET".to_owned(),
        code: "neet".to_owned(),
        formats: ExamFormats {
            photo: DocumentFormat {
                width: 200,
                height: 230,
                dpi: 200,
                format: Codec::Jpeg,
                quality: 80,
                max_size: 100,
            },
            signature: DocumentFormat {
                width: 200,
                height: 80,
                dpi: 200,
                format: Codec::Jpeg,
                quality: 80,
                max_size: 30,
            },
            documents: DocumentFormat {
                width: 600,
                height: 800,
                dpi: 150,
                format: Codec::Jpeg,
                quality: 75,
                max_size: 300,
            },
        },
        max_file_size: 1024,
        allowed_formats,
        document_types,
    };
    assert(strings_of(r.allowed_formats@) =~= seq!["image/jpeg"@, "image/png"@]);
    assert(strings_of(r.document_types@) =~= seq!["photo"@, "signature"@, "class10_marksheet"@, "class12_marksheet"@]);
    r
}

} // verus!
