use vstd::prelude::*;
use crate::request::BuildType;
use crate::{opt_str_view, opt_string_view};

verus! {

/// The largest package accepted: 2 GiB.
pub const MAX_UPLOAD_BYTES: u64 = 2147483648;

/// Why a file cannot be uploaded; each is found before any network call.
#[derive(Clone, Copy, Debug, PartialEq, Eq, Structural)]
pub enum FileError {
    /// No file was named.
    NoFile,
    /// The file does not exist.
    NotFound,
    /// The path does not end in a file name.
    NoFileName,
    /// The file name has no extension.
    NoExtension,
    /// The extension is neither `apk` nor `ipa`.
    UnsupportedFormat,
    /// The file is larger than 2 GiB.
    TooLarge,
}

/// A file that passed the checks: its package kind and the name under
/// which it is sent.
pub struct UploadFile {
    pub build_type: BuildType,
    pub file_name: String,
}

/// The last component of a path, as `Path::file_name` computes it.
pub uninterp spec fn file_name_of(path: Seq<char>) -> Option<Seq<char>>;

/// Relies on `std::path::Path::file_name`: the final component of the path,
/// if it is a normal one.
#[verifier::external_body]
fn path_file_name(path: &str) -> (r: Option<String>)
    ensures
        opt_string_view(r) == file_name_of(path@),
{
    match std::path::Path::new(path).file_name() {
        Some(n) => n.to_str().map(String::from),
        None => None,
    }
}

/// Index of the last dot in a text, or -1 when it has none.
pub open spec fn last_dot(s: Seq<char>) -> int
    decreases s.len(),
{
    if s.len() == 0 {
        -1
    } else if s.last() == '.' {
        s.len() - 1
    } else {
        last_dot(s.drop_last())
    }
}

/// The extension of a file name, taken as `Path::extension` takes it: the
/// text after the last dot, unless there is no dot or the only one opens
/// the name.
pub open spec fn extension_in(name: Seq<char>) -> Option<Seq<char>> {
    if last_dot(name) <= 0 {
        None
    } else {
        Some(name.subrange(last_dot(name) + 1, name.len() as int))
    }
}

/// The extension of a file name.
pub fn name_extension(name: &str) -> (r: Option<String>)
    ensures
        opt_string_view(r) == extension_in(name@),
{
    let n = name.unicode_len();
    let mut i: usize = n;
    proof {
        assert(name@.subrange(0, n as int) =~= name@);
    }
    while i > 0
        invariant
            i <= n,
            n == name@.len(),
            last_dot(name@) == last_dot(name@.subrange(0, i as int)),
        decreases i,
    {
        if name.get_char(i - 1) == '.' {
            if i == 1 {
                return None;
            }
            return Some(name.substring_char(i, n).to_owned());
        }
        proof {
            assert(name@.subrange(0, i as int).drop_last() =~= name@.subrange(0, i - 1));
        }
        i = i - 1;
    }
    None
}

/// The lower-case form of a text, as `str::to_lowercase` computes it.
pub uninterp spec fn lower_of(s: Seq<char>) -> Seq<char>;

/// Relies on `str::to_lowercase`: the result depends on the text alone.
#[verifier::external_body]
fn lowercase(s: &str) -> (r: String)
    ensures
        r@ == lower_of(s@),
{
    s.to_lowercase()
}

/// The package kind that a lower-case extension stands for.
pub open spec fn spec_classify(lower: Seq<char>) -> Option<BuildType> {
    if lower == "apk"@ {
        Some(BuildType::Apk)
    } else if lower == "ipa"@ {
        Some(BuildType::Ipa)
    } else {
        None
    }
}

/// The package kind that an extension stands for, whatever its case.
pub open spec fn spec_build_type(ext: Option<Seq<char>>) -> Result<BuildType, FileError> {
    match ext {
        None => Err(FileError::NoExtension),
        Some(e) => match spec_classify(lower_of(e)) {
            Some(t) => Ok(t),
            None => Err(FileError::UnsupportedFormat),
        },
    }
}

/// Classifies an extension already brought to lower case.
pub fn build_type_of(lower: &str) -> (r: Option<BuildType>)
    ensures
        r == spec_classify(lower@),
{
    let e = lower.to_owned();
    if e == String::from_str("apk") {
        Some(BuildType::Apk)
    } else if e == String::from_str("ipa") {
        Some(BuildType::Ipa)
    } else {
        None
    }
}

/// Checks a file from its extension and size: the extension must be `apk`
/// or `ipa` in any case, and the size at most 2 GiB.
pub fn check_file(ext: Option<&str>, size: u64) -> (r: Result<BuildType, FileError>)
    ensures
        spec_build_type(opt_str_view(ext)) is Err ==> r == spec_build_type(opt_str_view(ext)),
        spec_build_type(opt_str_view(ext)) is Ok && size > MAX_UPLOAD_BYTES ==> r == Err::<
            BuildType,
            FileError,
        >(FileError::TooLarge),
        spec_build_type(opt_str_view(ext)) is Ok && size <= MAX_UPLOAD_BYTES ==> r
            == spec_build_type(opt_str_view(ext)),
{
    let build_type = match ext {
        None => { return Err(FileError::NoExtension); },
        Some(e) => {
            let lower = lowercase(e);
            match build_type_of(lower.as_str()) {
                Some(t) => t,
                None => { return Err(FileError::UnsupportedFormat); },
            }
        },
    };
    if size > MAX_UPLOAD_BYTES {
        return Err(FileError::TooLarge);
    }
    Ok(build_type)
}

/// The outcome of the checks on a named file whose size is known when it
/// exists, in the order they are made.
pub open spec fn spec_upload(path: Option<Seq<char>>, size: Option<u64>) -> Result<
    (BuildType, Seq<char>),
    FileError,
> {
    match path {
        None => Err(FileError::NoFile),
        Some(p) => match size {
            None => Err(FileError::NotFound),
            Some(n) => match file_name_of(p) {
                None => Err(FileError::NoFileName),
                Some(name) => match spec_build_type(extension_in(name)) {
                    Err(e) => Err(e),
                    Ok(t) => if n > MAX_UPLOAD_BYTES {
                        Err(FileError::TooLarge)
                    } else {
                        Ok((t, name))
                    },
                },
            },
        },
    }
}

/// Checks the file to upload. `size` is the file's length, or `None` when
/// its metadata cannot be read.
pub fn upload(path: Option<&str>, size: Option<u64>) -> (r: Result<UploadFile, FileError>)
    ensures
        r is Ok <==> spec_upload(opt_str_view(path), size) is Ok,
        r matches Ok(f) ==> spec_upload(opt_str_view(path), size) == Ok::<
            (BuildType, Seq<char>),
            FileError,
        >((f.build_type, f.file_name@)),
        r matches Err(e) ==> spec_upload(opt_str_view(path), size) == Err::<
            (BuildType, Seq<char>),
            FileError,
        >(e),
{
    let p = match path {
        None => { return Err(FileError::NoFile); },
        Some(p) => p,
    };
    let n = match size {
        None => { return Err(FileError::NotFound); },
        Some(n) => n,
    };
    let file_name = match path_file_name(p) {
        None => { return Err(FileError::NoFileName); },
        Some(name) => name,
    };
    let ext = name_extension(file_name.as_str());
    let ext_ref: Option<&str> = match &ext {
        Some(e) => Some(e.as_str()),
        None => None,
    };
    match check_file(ext_ref, n) {
        Err(e) => Err(e),
        Ok(build_type) => Ok(UploadFile { build_type, file_name }),
    }
}

/// A file larger than 2 GiB is never accepted for upload, whatever its name.
pub proof fn lemma_oversized_rejected(path: Seq<char>, size: u64)
    requires
        size > MAX_UPLOAD_BYTES,
    ensures
        spec_upload(Some(path), Some(size)) is Err,
{
}

/// A file whose extension is neither `apk` nor `ipa`, in any case, is never
/// accepted, and the extension alone is refused as a format error.
pub proof fn lemma_unknown_extension_rejected(path: Seq<char>, size: Option<u64>)
    requires
        file_name_of(path) matches Some(name) ==> (extension_in(name) matches Some(e) ==> lower_of(e)
            != "apk"@ && lower_of(e) != "ipa"@),
    ensures
        spec_upload(Some(path), size) is Err,
        file_name_of(path) matches Some(name) ==> spec_build_type(extension_in(name)) == Err::<
            BuildType,
            FileError,
        >(FileError::NoExtension) || spec_build_type(extension_in(name)) == Err::<
            BuildType,
            FileError,
        >(
            FileError::UnsupportedFormat,
        ),
{
}

} // verus!
