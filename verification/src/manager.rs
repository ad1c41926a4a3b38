//! Finding a package's manifest.
use crate::package::Package;
use vstd::prelude::*;

verus! {

/// The name of the manifest in a package's directory.
pub const MANIFEST_FILE: &'static str = "run.yml";

/// Why a manifest could not be had. Each variant carries the words of the
/// failure underneath.
#[derive(Debug, PartialEq, Eq)]
pub enum PackageInfoError {
    /// The file is not there or cannot be read.
    ReadingFileFailed(String),
    /// The file does not hold a manifest.
    ParsingFileFailed(String),
}

impl PackageInfoError {
    /// The error in words.
    pub fn message(&self) -> (text: String)
        ensures
            text@ == (match self {
                PackageInfoError::ReadingFileFailed(_) => "could not read file"@,
                PackageInfoError::ParsingFileFailed(_) => "could not parse file"@,
            }),
    {
        match self {
            PackageInfoError::ReadingFileFailed(_) => "could not read file".to_owned(),
            PackageInfoError::ParsingFileFailed(_) => "could not parse file".to_owned(),
        }
    }
}

/// Where the manifest is, given a path: a path that names a file is the
/// manifest itself, and `None` is returned; any other path is taken for the
/// package's directory, and the name of the manifest in it is returned.
pub fn manifest_file(path_is_file: bool) -> (inside: Option<&'static str>)
    ensures
        path_is_file ==> inside is None,
        !path_is_file ==> inside == Some(MANIFEST_FILE),
{
    if path_is_file {
        None
    } else {
        Some(MANIFEST_FILE)
    }
}

/// The package that a manifest declares, given what came of opening the
/// file and of reading a manifest from it. A file that could not be opened
/// is a `ReadingFileFailed`; a file that was opened and holds no manifest
/// is a `ParsingFileFailed`; each error carries the words it was given.
pub fn get_package_info(opened: Result<Result<Package, String>, String>) -> (res: Result<
    Package,
    PackageInfoError,
>)
    ensures
        res == (match opened {
            Ok(Ok(package)) => Ok::<Package, PackageInfoError>(package),
            Ok(Err(detail)) => Err(PackageInfoError::ParsingFileFailed(detail)),
            Err(detail) => Err(PackageInfoError::ReadingFileFailed(detail)),
        }),
{
    match opened {
        Ok(Ok(package)) => Ok(package),
        Ok(Err(detail)) => Err(PackageInfoError::ParsingFileFailed(detail)),
        Err(detail) => Err(PackageInfoError::ReadingFileFailed(detail)),
    }
}

} // verus!
