use crate::bitmap::raster_from_decoded;
use crate::error::DecodeError;
use crate::frame::Raster;
use vstd::prelude::*;

verus! {

#[verifier::external_type_specification]
#[verifier::external_body]
pub struct ExSvgTree(usvg::Tree);

#[verifier::external_type_specification]
#[verifier::external_body]
pub struct ExSvgError(usvg::Error);

#[verifier::external_type_specification]
#[verifier::external_body]
pub struct ExPixmap(resvg::tiny_skia::Pixmap);

/// `usvg::Tree::from_data` with the default options.
#[verifier::external_body]
fn parse_tree(buf: &Vec<u8>) -> (r: Result<usvg::Tree, usvg::Error>) {
    usvg::Tree::from_data(buf, &usvg::Options::default())
}

/// `usvg::Tree::size`, brought to whole pixels by `Size::to_int_size`, which
/// rounds to the nearest and gives at least 1: the width and the height.
#[verifier::external_body]
fn tree_size(tree: &usvg::Tree) -> (r: (u32, u32)) {
    let size = tree.size().to_int_size();
    (size.width(), size.height())
}

/// `tiny_skia::Pixmap::new`: a transparent pixmap, or nothing where the
/// dimensions are refused.
#[verifier::external_body]
fn new_pixmap(width: u32, height: u32) -> (r: Option<resvg::tiny_skia::Pixmap>) {
    resvg::tiny_skia::Pixmap::new(width, height)
}

/// `resvg::render` with the identity transform.
#[verifier::external_body]
fn render_tree(tree: &usvg::Tree, pixmap: &mut resvg::tiny_skia::Pixmap) {
    resvg::render(tree, resvg::tiny_skia::Transform::default(), &mut pixmap.as_mut());
}

/// `tiny_skia::Pixmap::data`, copied: the RGBA bytes of the pixmap.
#[verifier::external_body]
fn pixmap_bytes(pixmap: &resvg::tiny_skia::Pixmap) -> (r: Vec<u8>) {
    pixmap.data().to_vec()
}

/// Rasterises an SVG document at its own size.
pub fn load_image_svg(buf: &Vec<u8>) -> (r: Result<Raster, DecodeError>)
    ensures
        r matches Ok(raster) ==> raster.wf(),
        r matches Err(e) ==> e == DecodeError::NotThisFormat || e == DecodeError::MalformedBuffer,
{
    let tree = match parse_tree(buf) {
        Ok(tree) => tree,
        Err(_) => {
            return Err(DecodeError::NotThisFormat);
        },
    };
    let (width, height) = tree_size(&tree);
    let mut pixmap = match new_pixmap(width, height) {
        Some(pixmap) => pixmap,
        None => {
            return Err(DecodeError::MalformedBuffer);
        },
    };
    render_tree(&tree, &mut pixmap);
    raster_from_decoded(Some((width, height, pixmap_bytes(&pixmap))))
}

} // verus!
