use vstd::prelude::*;

use crate::errors::ValidationError;

verus! {

/// A recognized input or output format.
#[derive(Debug, Clone, Copy, PartialEq, Eq, Structural)]
pub enum FileFormat {
    Json,
    Csv,
}

/// What the caller knows about one input path: the path itself, whether it
/// names an existing regular file, and its extension and stem.
#[derive(Debug, Clone)]
pub struct InputFile {
    pub path: String,
    pub is_file: bool,
    pub extension: Option<String>,
    pub stem: Option<String>,
}

/// The format that a file extension maps to, if any.
pub open spec fn format_of_ext(e: Seq<char>) -> Option<FileFormat> {
    if e == "json"@ {
        Some(FileFormat::Json)
    } else if e == "csv"@ {
        Some(FileFormat::Csv)
    } else {
        None
    }
}

pub open spec fn ext_of(f: InputFile) -> Option<Seq<char>> {
    match f.extension {
        Some(e) => Some(e@),
        None => None,
    }
}

/// Every path in the set names an existing regular file.
pub open spec fn all_are_files(files: Seq<InputFile>) -> bool {
    forall|i: int| 0 <= i < files.len() ==> files[i].is_file
}

/// Every file in the set carries the extension `e`.
pub open spec fn shared_ext(files: Seq<InputFile>, e: Seq<char>) -> bool {
    forall|i: int| 0 <= i < files.len() ==> ext_of(files[i]) == Some(e)
}

impl FileFormat {
    /// Parses a format tag, as given on a command line.
    pub fn from_str(s: &str) -> (r: Result<FileFormat, ValidationError>)
        ensures
            match r {
                Ok(f) => format_of_ext(s@) == Some(f),
                Err(ValidationError::UnknownFormat { extension }) => format_of_ext(s@) is None
                    && extension@ == s@,
                Err(_) => false,
            },
    {
        let t = s.to_owned();
        if t == "json".to_owned() {
            Ok(FileFormat::Json)
        } else if t == "csv".to_owned() {
            Ok(FileFormat::Csv)
        } else {
            Err(ValidationError::UnknownFormat { extension: t })
        }
    }
}

/// Resolves the one format shared by a set of input files.
///
/// Succeeds exactly when every path names an existing regular file and all
/// files carry one extension that maps to a known format; otherwise the
/// offending path or the conflicting extensions are reported, and nothing
/// is processed.
pub fn file_format(files: &Vec<InputFile>) -> (r: Result<FileFormat, ValidationError>)
    requires
        files@.len() > 0,
    ensures
        match r {
            Ok(f) => {
                &&& all_are_files(files@)
                &&& match ext_of(files@[0]) {
                    Some(e) => shared_ext(files@, e) && format_of_ext(e) == Some(f),
                    None => false,
                }
            },
            Err(ValidationError::NotAFile { path }) => exists|i: int|
                0 <= i < files@.len() && !files@[i].is_file && path@ == files@[i].path@,
            Err(ValidationError::MissingExtension { path }) => all_are_files(files@)
                && exists|i: int|
                0 <= i < files@.len() && ext_of(files@[i]) is None && path@ == files@[i].path@,
            Err(ValidationError::MixedExtensions { expected, found }) => {
                &&& all_are_files(files@)
                &&& ext_of(files@[0]) == Some(expected@)
                &&& exists|i: int|
                    0 <= i < files@.len() && ext_of(files@[i]) == Some(found@) && found@
                        != expected@
            },
            Err(ValidationError::UnknownFormat { extension }) => {
                &&& all_are_files(files@)
                &&& shared_ext(files@, extension@)
                &&& format_of_ext(extension@) is None
            },
        },
        r is Ok <==> {
            &&& all_are_files(files@)
            &&& match ext_of(files@[0]) {
                Some(e) => shared_ext(files@, e) && format_of_ext(e) is Some,
                None => false,
            }
        },
{
    let n = files.len();
    let mut i: usize = 0;
    while i < n
        invariant
            0 <= i <= n,
            n == files@.len(),
            forall|j: int| 0 <= j < i ==> files@[j].is_file,
        decreases n - i,
    {
        if !files[i].is_file {
            return Err(ValidationError::NotAFile { path: files[i].path.clone() });
        }
        i += 1;
    }
    let ext = match &files[0].extension {
        Some(e) => e,
        None => {
            return Err(ValidationError::MissingExtension { path: files[0].path.clone() });
        },
    };
    let mut i: usize = 1;
    while i < n
        invariant
            1 <= i <= n,
            n == files@.len(),
            files@.len() > 0,
            all_are_files(files@),
            ext_of(files@[0]) == Some(ext@),
            forall|j: int| 0 <= j < i ==> ext_of(files@[j]) == Some(ext@),
        decreases n - i,
    {
        match &files[i].extension {
            Some(e2) => {
                if !(*e2 == *ext) {
                    return Err(ValidationError::MixedExtensions {
                        expected: ext.clone(),
                        found: e2.clone(),
                    });
                }
            },
            None => {
                return Err(ValidationError::MissingExtension { path: files[i].path.clone() });
            },
        }
        i += 1;
    }
    let t = ext.clone();
    if t == "json".to_owned() {
        Ok(FileFormat::Json)
    } else if t == "csv".to_owned() {
        Ok(FileFormat::Csv)
    } else {
        Err(ValidationError::UnknownFormat { extension: t })
    }
}

} // verus!
