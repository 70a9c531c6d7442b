//! Turning a base64 payload into the file that is to be written: where it
//! goes, what it is called and the bytes it holds.

use base64::Engine;
use vstd::prelude::*;

use crate::paths::{is_absolute_path, join_path, path_is_absolute, path_joined};
use crate::text::{
    decimal, decimal_text, is_blank, is_blank_text, lowercase, lowercased, same_text, view_of,
};

verus! {

/// Why a payload is not valid base64; the variants of `base64::DecodeError`.
#[derive(Debug, Clone, Copy, PartialEq, Eq, Structural)]
pub enum DecodeFailure {
    /// A byte outside the alphabet, or padding before the end: offset, byte.
    InvalidByte(usize, u8),
    /// The number of symbols does not make a whole payload.
    InvalidLength(usize),
    /// The last symbol holds bits that would be thrown away: offset, byte.
    InvalidLastSymbol(usize, u8),
    /// Padding is missing or is not canonical.
    InvalidPadding,
}

/// Why an image could not be saved.
#[derive(Debug)]
pub enum ImageSaveError {
    EmptyPayload,
    Decode(DecodeFailure),
    /// The path of the running program could not be had; the cause, as text.
    ResolveApplicationDirectory(String),
    InvalidApplicationDirectory,
    /// The file cannot be written: the path, and the cause as text. The
    /// library gives this error for a path that is not absolute; every
    /// other cause is the system's.
    Io { path: String, source: String },
}

/// What the caller settles of the file: its stem, the MIME type of the
/// image and the directory. Each may be left open.
#[derive(Debug)]
pub struct SaveImageOptions<'a> {
    pub file_stem: Option<&'a str>,
    pub mime_type: Option<&'a str>,
    pub output_dir: Option<&'a str>,
}

impl<'a> Default for SaveImageOptions<'a> {
    fn default() -> (options: Self)
        ensures
            options.file_stem is None,
            options.mime_type is None,
            options.output_dir is None,
    {
        SaveImageOptions { file_stem: None, mime_type: None, output_dir: None }
    }
}

/// Where the running program lies, as far as it could be found out.
#[derive(Debug)]
pub enum ApplicationDir<'a> {
    /// The directory that holds the program.
    Found(&'a str),
    /// The program's path has no parent directory.
    NoParent,
    /// The program's path could not be had; the cause, as text.
    Unknown(&'a str),
}

/// An image that is ready to be written: the directory that is to hold
/// it, its name, the path of the file, which is the name joined to the
/// directory, and the bytes. Directory and path are absolute.
#[derive(Debug)]
pub struct ImageFile {
    pub directory: String,
    pub file_name: String,
    pub path: String,
    pub bytes: Vec<u8>,
}

/// Where an image goes.
#[derive(Debug)]
pub struct ImageTarget {
    pub directory: String,
    pub file_name: String,
    pub path: String,
}

/// What an `ImageTarget` holds.
pub struct Target {
    pub directory: Seq<char>,
    pub file_name: Seq<char>,
    pub path: Seq<char>,
}

impl View for ImageTarget {
    type V = Target;

    open spec fn view(&self) -> Target {
        Target { directory: self.directory@, file_name: self.file_name@, path: self.path@ }
    }
}

/// What an I/O error says of a path that is not absolute.
pub const NOT_ABSOLUTE: &'static str = "the path is not absolute";

/// What `base64`'s standard engine makes of a text: the decoded bytes, or
/// the reason why it is not a payload.
pub uninterp spec fn standard_decoding(encoded: Seq<char>) -> Result<Seq<u8>, DecodeFailure>;

/// `Engine::decode` of `base64::engine::general_purpose::STANDARD`, on the
/// bytes of the text: the result is a function of the text alone, the bytes
/// on success and otherwise the crate's own error, variant by variant.
#[verifier::external_body]
fn decode_standard(encoded: &str) -> (r: Result<Vec<u8>, DecodeFailure>)
    ensures
        match r {
            Ok(bytes) => standard_decoding(encoded@) == Ok::<Seq<u8>, DecodeFailure>(bytes@),
            Err(failure) => standard_decoding(encoded@) == Err::<Seq<u8>, DecodeFailure>(failure),
        },
{
    match base64::engine::general_purpose::STANDARD.decode(encoded) {
        Ok(bytes) => Ok(bytes),
        Err(base64::DecodeError::InvalidByte(at, byte)) => Err(DecodeFailure::InvalidByte(at, byte)),
        Err(base64::DecodeError::InvalidLength(len)) => Err(DecodeFailure::InvalidLength(len)),
        Err(base64::DecodeError::InvalidLastSymbol(at, byte)) => Err(
            DecodeFailure::InvalidLastSymbol(at, byte),
        ),
        Err(base64::DecodeError::InvalidPadding) => Err(DecodeFailure::InvalidPadding),
    }
}

/// The file extension for a MIME type, compared without regard to ASCII
/// case; a missing type counts as `image/png`, an unknown one gives `bin`.
pub open spec fn extension(mime_type: Option<Seq<char>>) -> Seq<char> {
    let mime = lowercased(
        match mime_type {
            Some(m) => m,
            None => "image/png"@,
        },
    );
    if mime == "image/jpeg"@ || mime == "image/jpg"@ {
        "jpg"@
    } else if mime == "image/webp"@ {
        "webp"@
    } else if mime == "image/gif"@ {
        "gif"@
    } else if mime == "image/png"@ {
        "png"@
    } else {
        "bin"@
    }
}

/// The file name: the stem where one is given, else `mawaku-image-` and the
/// milliseconds since the epoch; then a dot and the extension.
pub open spec fn file_name(file_stem: Option<Seq<char>>, extension: Seq<char>, epoch_millis: nat) -> Seq<
    char,
> {
    match file_stem {
        Some(stem) => stem + "."@ + extension,
        None => "mawaku-image-"@ + decimal(epoch_millis) + "."@ + extension,
    }
}

/// The directory to write to: the one asked for, else the program's own.
pub open spec fn output_dir(dir: Option<Seq<char>>, application_dir: ApplicationDir) -> Option<
    Seq<char>,
> {
    match dir {
        Some(path) => Some(path),
        None => match application_dir {
            ApplicationDir::Found(path) => Some(path@),
            _ => None,
        },
    }
}

/// Whether the program's path could not be had, for the given cause.
pub open spec fn unknown_because(application_dir: ApplicationDir, cause: Seq<char>) -> bool {
    match application_dir {
        ApplicationDir::Unknown(why) => why@ == cause,
        _ => false,
    }
}

/// The file extension for a MIME type.
pub fn extension_from_mime(mime_type: Option<&str>) -> (r: &'static str)
    ensures
        r@ == extension(view_of(mime_type)),
{
    let mime = lowercase(
        match mime_type {
            Some(m) => m,
            None => "image/png",
        },
    );
    if same_text(mime.as_str(), "image/jpeg") || same_text(mime.as_str(), "image/jpg") {
        "jpg"
    } else if same_text(mime.as_str(), "image/webp") {
        "webp"
    } else if same_text(mime.as_str(), "image/gif") {
        "gif"
    } else if same_text(mime.as_str(), "image/png") {
        "png"
    } else {
        "bin"
    }
}

/// The directory to write to, or why there is none.
pub fn resolve_output_dir(dir: Option<&str>, application_dir: &ApplicationDir) -> (r: Result<
    String,
    ImageSaveError,
>)
    ensures
        match r {
            Ok(path) => output_dir(view_of(dir), *application_dir) == Some(path@),
            Err(ImageSaveError::InvalidApplicationDirectory) => dir is None
                && application_dir is NoParent,
            Err(ImageSaveError::ResolveApplicationDirectory(cause)) => dir is None
                && unknown_because(*application_dir, cause@),
            Err(_) => false,
        },
{
    if let Some(path) = dir {
        return Ok(path.to_owned());
    }
    match application_dir {
        ApplicationDir::Found(path) => Ok((*path).to_owned()),
        ApplicationDir::NoParent => Err(ImageSaveError::InvalidApplicationDirectory),
        ApplicationDir::Unknown(why) => Err(
            ImageSaveError::ResolveApplicationDirectory((*why).to_owned()),
        ),
    }
}

/// The name of the file for an image.
pub fn image_file_name(file_stem: Option<&str>, extension: &str, epoch_millis: u128) -> (r: String)
    ensures
        r@ == file_name(view_of(file_stem), extension@, epoch_millis as nat),
{
    let mut name = match file_stem {
        Some(stem) => stem.to_owned(),
        None => {
            let mut name = "mawaku-image-".to_owned();
            name.append(decimal_text(epoch_millis).as_str());
            name
        },
    };
    name.append(".");
    name.append(extension);
    name
}

/// The directory made absolute: itself where it is absolute, else joined
/// to the current directory.
pub open spec fn absolute_dir(directory: Seq<char>, current_dir: Seq<char>) -> Seq<char> {
    if path_is_absolute(directory) {
        directory
    } else {
        path_joined(current_dir, directory)
    }
}

/// Where a file of that name goes for a directory as it was asked for: into
/// the directory made absolute, at the name joined to it.
pub open spec fn target(directory: Seq<char>, current_dir: Seq<char>, file_name: Seq<char>) -> Target {
    Target {
        directory: absolute_dir(directory, current_dir),
        file_name,
        path: path_joined(absolute_dir(directory, current_dir), file_name),
    }
}

/// The path of a target that is not absolute, if one is not: the directory
/// is looked at first, then the path of the file.
pub open spec fn not_absolute(target: Target) -> Option<Seq<char>> {
    if !path_is_absolute(target.directory) {
        Some(target.directory)
    } else if !path_is_absolute(target.path) {
        Some(target.path)
    } else {
        None
    }
}

/// Whether the lookup of the program's path is wanted: it is where the
/// payload is not blank and the options name no directory.
pub fn wants_application_dir(encoded: &str, options: &SaveImageOptions) -> (r: bool)
    ensures
        r == (!is_blank(encoded@) && options.output_dir is None),
{
    !is_blank_text(encoded) && options.output_dir.is_none()
}

/// The directory made absolute: itself where it is absolute, else joined
/// to the current directory.
pub fn absolute_directory(directory: &str, current_dir: &str) -> (r: String)
    ensures
        r@ == absolute_dir(directory@, current_dir@),
{
    if is_absolute_path(directory) {
        directory.to_owned()
    } else {
        join_path(current_dir, directory)
    }
}

/// Where a file of that name goes, or the I/O error for a directory or a
/// path that is not absolute.
pub fn image_target(directory: &str, current_dir: &str, file_name: String) -> (r: Result<
    ImageTarget,
    ImageSaveError,
>)
    ensures
        match r {
            Ok(found) => found@ == target(directory@, current_dir@, file_name@) && not_absolute(
                found@,
            ) is None,
            Err(ImageSaveError::Io { path, source }) => not_absolute(
                target(directory@, current_dir@, file_name@),
            ) == Some(path@) && source@ == NOT_ABSOLUTE@,
            Err(_) => false,
        },
{
    let directory = absolute_directory(directory, current_dir);
    if !is_absolute_path(directory.as_str()) {
        return Err(ImageSaveError::Io { path: directory, source: NOT_ABSOLUTE.to_owned() });
    }
    let path = join_path(directory.as_str(), file_name.as_str());
    if !is_absolute_path(path.as_str()) {
        return Err(ImageSaveError::Io { path, source: NOT_ABSOLUTE.to_owned() });
    }
    Ok(ImageTarget { directory, file_name, path })
}

/// The image file for a payload that was decoded, or the error for one that
/// was not.
pub fn image_file(decoded: Result<Vec<u8>, DecodeFailure>, target: ImageTarget) -> (r: Result<
    ImageFile,
    ImageSaveError,
>)
    ensures
        match r {
            Ok(file) => decoded == Ok::<Vec<u8>, DecodeFailure>(file.bytes) && file.directory
                == target.directory && file.file_name == target.file_name && file.path
                == target.path,
            Err(ImageSaveError::Decode(failure)) => decoded == Err::<Vec<u8>, DecodeFailure>(
                failure,
            ),
            Err(_) => false,
        },
{
    match decoded {
        Ok(bytes) => Ok(
            ImageFile {
                directory: target.directory,
                file_name: target.file_name,
                path: target.path,
                bytes,
            },
        ),
        Err(failure) => Err(ImageSaveError::Decode(failure)),
    }
}

/// Where the file of a payload goes, as far as the options, the program's
/// directory and the current directory settle it: nowhere, where no
/// directory is to be had.
pub open spec fn planned(
    options: SaveImageOptions,
    application_dir: ApplicationDir,
    current_dir: Seq<char>,
    epoch_millis: nat,
) -> Option<Target> {
    match output_dir(view_of(options.output_dir), application_dir) {
        Some(directory) => Some(
            target(
                directory,
                current_dir,
                file_name(
                    view_of(options.file_stem),
                    extension(view_of(options.mime_type)),
                    epoch_millis,
                ),
            ),
        ),
        None => None,
    }
}

/// Prepares the file for a base64 payload. `application_dir` is consulted
/// only where the options name no directory, `current_dir` only where the
/// directory is not absolute, `epoch_millis` only where the options name no
/// stem. Nothing is written: the result says what is to be.
///
/// A blank payload is refused before anything else is looked at. Then
/// comes the directory, which is made absolute, then the path, which is an
/// I/O error where it is not absolute, and only then the decoding.
pub fn save_base64_image(
    encoded: &str,
    options: &SaveImageOptions,
    application_dir: &ApplicationDir,
    current_dir: &str,
    epoch_millis: u128,
) -> (r: Result<ImageFile, ImageSaveError>)
    ensures
        is_blank(encoded@) ==> r matches Err(ImageSaveError::EmptyPayload),
        match r {
            Ok(file) => {
                &&& !is_blank(encoded@)
                &&& planned(*options, *application_dir, current_dir@, epoch_millis as nat)
                    == Some(
                    Target {
                        directory: file.directory@,
                        file_name: file.file_name@,
                        path: file.path@,
                    },
                )
                &&& path_is_absolute(file.directory@)
                &&& path_is_absolute(file.path@)
                &&& standard_decoding(encoded@) == Ok::<Seq<u8>, DecodeFailure>(file.bytes@)
            },
            Err(ImageSaveError::EmptyPayload) => is_blank(encoded@),
            Err(ImageSaveError::InvalidApplicationDirectory) => {
                &&& !is_blank(encoded@)
                &&& options.output_dir is None
                &&& application_dir is NoParent
            },
            Err(ImageSaveError::ResolveApplicationDirectory(cause)) => {
                &&& !is_blank(encoded@)
                &&& options.output_dir is None
                &&& unknown_because(*application_dir, cause@)
            },
            Err(ImageSaveError::Io { path, source }) => {
                &&& !is_blank(encoded@)
                &&& planned(*options, *application_dir, current_dir@, epoch_millis as nat)
                    matches Some(target)
                &&& not_absolute(target) == Some(path@)
                &&& source@ == NOT_ABSOLUTE@
            },
            Err(ImageSaveError::Decode(failure)) => {
                &&& !is_blank(encoded@)
                &&& planned(*options, *application_dir, current_dir@, epoch_millis as nat)
                    matches Some(target)
                &&& not_absolute(target) is None
                &&& standard_decoding(encoded@) == Err::<Seq<u8>, DecodeFailure>(failure)
            },
        },
{
    if is_blank_text(encoded) {
        return Err(ImageSaveError::EmptyPayload);
    }
    let directory = match resolve_output_dir(options.output_dir, application_dir) {
        Ok(directory) => directory,
        Err(error) => {
            return Err(error);
        },
    };
    let extension = extension_from_mime(options.mime_type);
    let file_name = image_file_name(options.file_stem, extension, epoch_millis);
    let target = match image_target(directory.as_str(), current_dir, file_name) {
        Ok(target) => target,
        Err(error) => {
            return Err(error);
        },
    };
    image_file(decode_standard(encoded), target)
}

impl ImageSaveError {
    /// What the error says, in words.
    pub open spec fn text(self) -> Seq<char> {
        match self {
            ImageSaveError::EmptyPayload => "image payload is empty"@,
            ImageSaveError::Decode(_) => "failed to decode image bytes"@,
            ImageSaveError::ResolveApplicationDirectory(cause) =>
                "failed to resolve application directory: "@ + cause@,
            ImageSaveError::InvalidApplicationDirectory =>
                "application directory has no parent directory"@,
            ImageSaveError::Io { path, source } => "failed to write image to "@ + path@,
        }
    }

    /// What the error says, in words.
    pub fn message(&self) -> (r: String)
        ensures
            r@ == self.text(),
    {
        match self {
            ImageSaveError::EmptyPayload => "image payload is empty".to_owned(),
            ImageSaveError::Decode(_) => "failed to decode image bytes".to_owned(),
            ImageSaveError::ResolveApplicationDirectory(cause) => {
                let mut text = "failed to resolve application directory: ".to_owned();
                text.append(cause.as_str());
                text
            },
            ImageSaveError::InvalidApplicationDirectory =>
                "application directory has no parent directory".to_owned(),
            ImageSaveError::Io { path, source } => {
                let mut text = "failed to write image to ".to_owned();
                text.append(path.as_str());
                text
            },
        }
    }
}

} // verus!
