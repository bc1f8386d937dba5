use crate::dispatch::DecodedImage;
use std::path::PathBuf;
use vstd::prelude::*;
use vstd::string::*;

verus! {

#[verifier::external_type_specification]
#[verifier::external_body]
pub struct ExPathBuf(PathBuf);

/// The text of a path: what `Path::to_str` shows of it, `None` where the path
/// is not valid Unicode.
pub uninterp spec fn path_text(path: PathBuf) -> Option<Seq<char>>;

/// `Path::to_str`: the path as text, if it is valid Unicode. Trusted: the
/// result is the path's text under the name [`path_text`].
#[verifier::external_body]
fn path_to_str(path: &PathBuf) -> (r: Option<&str>)
    ensures
        r is Some <==> path_text(*path) is Some,
        r matches Some(s) ==> path_text(*path) == Some(s@),
{
    path.to_str()
}

/// `PathBuf::new` makes the empty path.
pub assume_specification[ PathBuf::new ]() -> (r: PathBuf)
    ensures
        path_text(r) == Some(Seq::<char>::empty()),
;

/// `PathBuf::clone` copies the path.
pub assume_specification[ <PathBuf as Clone>::clone ](path: &PathBuf) -> (r: PathBuf)
    ensures
        r == *path,
;

/// The scheme prefix of a file URI.
pub open spec fn uri_prefix() -> Seq<char> {
    "file://"@
}

/// The file URI of a path given as text.
pub open spec fn spec_uri(text: Seq<char>) -> Seq<char> {
    uri_prefix() + text
}

/// Builds the file URI of a path given as text.
pub fn uri_from_text(text: &str) -> (uri: String)
    ensures
        uri@ == spec_uri(text@),
{
    String::from_str("file://").concat(text)
}

/// The file URI of a path. A path that is not valid Unicode counts as empty.
pub fn pathbuf_as_uri(path_buf: &PathBuf) -> (uri: String)
    ensures
        uri@ == spec_uri(
            match path_text(*path_buf) {
                Some(text) => text,
                None => Seq::<char>::empty(),
            },
        ),
{
    proof {
        reveal_strlit("");
    }
    match path_to_str(path_buf) {
        Some(text) => uri_from_text(text),
        None => {
            assert(""@ =~= Seq::<char>::empty());
            uri_from_text("")
        },
    }
}

/// What is known of a loaded image file.
pub struct ImageInfo {
    pub path: PathBuf,
    pub name: String,
    pub format: String,
    pub size: u64,
    pub resolution: Option<(u32, u32)>,
}

impl ImageInfo {
    /// The record of a decoded image: where it came from, how many bytes
    /// the file held, and the label and dimensions that decoding gave.
    pub fn describe(path: PathBuf, name: String, size: u64, image: &DecodedImage) -> (r: ImageInfo)
        ensures
            r.path == path,
            r.name == name,
            r.size == size,
            r.format@ == image.format_label@,
            r.resolution == Some((image.raster.width, image.raster.height)),
    {
        ImageInfo {
            path,
            name,
            format: image.format_label.clone(),
            size,
            resolution: Some((image.raster.width, image.raster.height)),
        }
    }

    /// The record of no image: empty path and name, format "Unknown".
    pub open spec fn is_blank(&self) -> bool {
        &&& path_text(self.path) == Some(Seq::<char>::empty())
        &&& self.name@ == Seq::<char>::empty()
        &&& self.format@ == "Unknown"@
        &&& self.size == 0
        &&& self.resolution is None
    }
}

impl Default for ImageInfo {
    fn default() -> (r: Self)
        ensures
            r.is_blank(),
    {
        ImageInfo {
            path: PathBuf::new(),
            name: String::new(),
            format: String::from_str("Unknown"),
            size: 0,
            resolution: None,
        }
    }
}

impl Clone for ImageInfo {
    fn clone(&self) -> (r: Self)
        ensures
            r == *self,
    {
        ImageInfo {
            path: self.path.clone(),
            name: self.name.clone(),
            format: self.format.clone(),
            size: self.size,
            resolution: self.resolution,
        }
    }
}

} // verus!
