use crate::bitmap::{
    decoded_rgba8, load_image_default, sniff_label, spec_bitmap_outcome, spec_sniffed_label,
};
use crate::develop::RasterView;
use crate::error::DecodeError;
use crate::frame::Raster;
use crate::raw::{load_image_raw, rawloader_decode, spec_raw_outcome};
use crate::registry::{LoaderCandidate, LoaderKind, default_registry, prioritize, spec_queue};
use crate::svg::load_image_svg;
use vstd::prelude::*;
use vstd::string::*;

verus! {

/// The result of a successful dispatch.
#[derive(Debug, PartialEq, Eq)]
pub struct DecodedImage {
    pub raster: Raster,
    /// Names the format that the image was decoded from.
    pub format_label: String,
}

impl DecodedImage {
    /// The raster is well formed: positive dimensions, four bytes per pixel.
    pub open spec fn wf(&self) -> bool {
        self.raster.wf()
    }
}

/// The label of an image that a candidate decoded: the candidate's tag, but
/// for the generic bitmap decoder the label that the signature of the buffer
/// gives, where it gives one.
pub open spec fn spec_label(candidate: LoaderCandidate, sniffed: Option<Seq<char>>) -> Seq<char> {
    if candidate.kind == LoaderKind::Bitmap && sniffed is Some {
        sniffed->Some_0
    } else {
        candidate.tag@
    }
}

/// What happened to the attempt that the dispatcher asked for.
#[derive(Debug, PartialEq, Eq)]
pub enum Event {
    /// Nothing yet: the dispatch begins.
    Begin,
    /// The candidate did not decode the buffer.
    Failed,
    /// The candidate decoded the buffer; with it comes the label that the
    /// signature of the buffer gives, if any.
    Decoded(Raster, Option<String>),
}

/// What the dispatcher wants done next.
#[derive(Debug, PartialEq, Eq)]
pub enum Action {
    /// Run the decoder of this kind on the buffer and report back.
    Attempt(LoaderKind),
    /// The dispatch is over: this is the image.
    Deliver(DecodedImage),
    /// The dispatch is over: it failed.
    Abandon(DecodeError),
}

/// The state of one dispatch: the candidates in the order of this call, and
/// how many of them have failed.
#[derive(Debug, PartialEq, Eq)]
pub struct Dispatch {
    pub queue: Vec<LoaderCandidate>,
    pub cursor: usize,
}

impl Dispatch {
    /// The cursor is within the queue or at its end.
    pub open spec fn wf(&self) -> bool {
        self.cursor <= self.queue@.len()
    }

    /// No candidate is left to try.
    pub open spec fn exhausted(&self) -> bool {
        self.cursor >= self.queue@.len()
    }

    /// What is to be done where the last attempt gave no image: attempt the
    /// candidate under the cursor, or give up where none is left.
    pub open spec fn spec_pending(&self) -> Action {
        if self.exhausted() {
            Action::Abandon(DecodeError::NoLoaderSucceeded)
        } else {
            Action::Attempt(self.queue@[self.cursor as int].kind)
        }
    }

    /// Sets up a dispatch over the registry for a file of the given
    /// extension.
    pub fn new(registry: &Vec<LoaderCandidate>, ext: Option<&str>) -> (d: Dispatch)
        ensures
            d.wf(),
            d.cursor == 0,
            d.queue@ == spec_queue(registry@, ext_view(ext)),
    {
        Dispatch { queue: prioritize(registry, ext), cursor: 0 }
    }

    /// Says what to do next: attempt the candidate under the cursor, or give
    /// up where none is left.
    fn pending(&self) -> (a: Action)
        requires
            self.wf(),
        ensures
            a == self.spec_pending(),
    {
        if self.cursor < self.queue.len() {
            Action::Attempt(self.queue[self.cursor].kind)
        } else {
            Action::Abandon(DecodeError::NoLoaderSucceeded)
        }
    }

    /// Takes the outcome of the last attempt and says what to do next.
    ///
    /// A failure is swallowed: the next candidate is attempted, and where
    /// none is left the dispatch is abandoned with `NoLoaderSucceeded`. A
    /// decoded raster ends the dispatch and is delivered under its label; one
    /// that is not well formed counts as a failure.
    pub fn step(&mut self, event: Event) -> (action: Action)
        requires
            old(self).wf(),
        ensures
            final(self).wf(),
            final(self).queue == old(self).queue,
            match event {
                Event::Begin => final(self).cursor == old(self).cursor,
                Event::Failed => final(self).cursor == if old(self).exhausted() {
                    old(self).cursor as int
                } else {
                    old(self).cursor + 1
                },
                Event::Decoded(raster, _) => final(self).cursor == if old(self).exhausted()
                    || raster.wf() {
                    old(self).cursor as int
                } else {
                    old(self).cursor + 1
                },
            },
            match event {
                Event::Decoded(raster, sniffed) if !old(self).exhausted() && raster.wf() => {
                    action matches Action::Deliver(image) && image.raster == raster
                        && image.format_label@ == spec_label(
                        old(self).queue@[old(self).cursor as int],
                        match sniffed {
                            Some(label) => Some(label@),
                            None => None,
                        },
                    )
                },
                _ => action == final(self).spec_pending(),
            },
    {
        match event {
            Event::Begin => self.pending(),
            Event::Failed => {
                if self.cursor < self.queue.len() {
                    self.cursor = self.cursor + 1;
                }
                self.pending()
            },
            Event::Decoded(raster, sniffed) => {
                if self.cursor >= self.queue.len() {
                    return self.pending();
                }
                if !raster.is_valid() {
                    self.cursor = self.cursor + 1;
                    return self.pending();
                }
                let candidate = &self.queue[self.cursor];
                let format_label = match sniffed {
                    Some(label) if candidate.kind == LoaderKind::Bitmap => label,
                    _ => candidate.tag.clone(),
                };
                Action::Deliver(DecodedImage { raster, format_label })
            },
        }
    }
}

/// What the decoder of a kind makes of a buffer, where that is settled by
/// the bytes alone. It is not for SVG, whose documents may name files to be
/// read, so nothing is said there. The library holds no decoder for HEIF and
/// JPEG XL: those attempts are refused as unavailable.
pub open spec fn spec_outcome(kind: LoaderKind, bytes: Seq<u8>) -> Option<
    Result<RasterView, DecodeError>,
> {
    match kind {
        LoaderKind::Raw => Some(spec_raw_outcome(rawloader_decode(bytes))),
        LoaderKind::Bitmap => Some(spec_bitmap_outcome(decoded_rgba8(bytes))),
        LoaderKind::Heif => Some(Err(DecodeError::DecoderUnavailable)),
        LoaderKind::JpegXl => Some(Err(DecodeError::DecoderUnavailable)),
        LoaderKind::Svg => None,
    }
}

/// The decoder of this kind is known to decode the buffer.
pub open spec fn spec_succeeds(kind: LoaderKind, bytes: Seq<u8>) -> bool {
    spec_outcome(kind, bytes) matches Some(Ok(_))
}

/// The decoder of this kind is known to refuse the buffer.
pub open spec fn spec_fails(kind: LoaderKind, bytes: Seq<u8>) -> bool {
    spec_outcome(kind, bytes) matches Some(Err(_))
}

/// The image that the decoder of this kind is known to give.
pub open spec fn spec_decoded(kind: LoaderKind, bytes: Seq<u8>) -> RasterView {
    spec_outcome(kind, bytes)->Some_0->Ok_0
}

/// Runs the decoder of one kind on the buffer.
pub fn attempt(kind: LoaderKind, buf: &Vec<u8>) -> (r: Result<Raster, DecodeError>)
    ensures
        r matches Ok(raster) ==> raster.wf(),
        match spec_outcome(kind, buf@) {
            Some(Ok(view)) => r matches Ok(raster) && raster@ == view,
            Some(Err(e)) => r matches Err(f) && f == e,
            None => r matches Err(e) ==> e == DecodeError::NotThisFormat || e
                == DecodeError::MalformedBuffer,
        },
{
    match kind {
        LoaderKind::Raw => load_image_raw(buf),
        LoaderKind::Svg => load_image_svg(buf),
        LoaderKind::Bitmap => load_image_default(buf),
        LoaderKind::Heif => Err(DecodeError::DecoderUnavailable),
        LoaderKind::JpegXl => Err(DecodeError::DecoderUnavailable),
    }
}

/// The label that the signature of the buffer gives, looked up only for the
/// generic bitmap decoder.
fn sniff_for(kind: LoaderKind, buf: &Vec<u8>) -> (r: Option<String>)
    ensures
        kind == LoaderKind::Bitmap ==> (r is Some <==> spec_sniffed_label(buf@) is Some),
        kind == LoaderKind::Bitmap ==> (r matches Some(label) ==> spec_sniffed_label(buf@) == Some(
            label@,
        )),
        kind != LoaderKind::Bitmap ==> r is None,
{
    if kind == LoaderKind::Bitmap {
        match sniff_label(buf.as_slice()) {
            Some(label) => Some(String::from_str(label)),
            None => None,
        }
    } else {
        None
    }
}

/// The view of an optional extension.
pub open spec fn ext_view(ext: Option<&str>) -> Option<Seq<char>> {
    match ext {
        Some(e) => Some(e@),
        None => None,
    }
}

/// The candidate at place `c` of the queue is known to decode the buffer,
/// and every candidate before it is known to refuse it.
pub open spec fn spec_leads(queue: Seq<LoaderCandidate>, bytes: Seq<u8>, c: int) -> bool {
    &&& 0 <= c < queue.len()
    &&& spec_succeeds(queue[c].kind, bytes)
    &&& forall|k: int| 0 <= k < c ==> spec_fails((#[trigger] queue[k]).kind, bytes)
}

/// Tries the candidates of a registry on a buffer, the one whose tag is the
/// extension first and then the others in their declared order, and returns
/// the image of the first that decodes it.
///
/// Failures of single candidates are not reported: only where every
/// candidate failed does the dispatch fail, with `NoLoaderSucceeded`. Where
/// a candidate is known to decode the buffer and all before it are known to
/// refuse it, the result is that candidate's image under its label.
pub fn get_image_with(registry: &Vec<LoaderCandidate>, buf: &Vec<u8>, ext: Option<&str>) -> (r:
    Result<DecodedImage, DecodeError>)
    ensures
        r matches Err(e) ==> e == DecodeError::NoLoaderSucceeded,
        r is Err ==> forall|i: int|
            0 <= i < registry@.len() ==> !spec_succeeds((#[trigger] registry@[i]).kind, buf@),
        r matches Ok(image) ==> image.wf() && exists|i: int|
            0 <= i < registry@.len() && image.format_label@ == spec_label(
                #[trigger] registry@[i],
                spec_sniffed_label(buf@),
            ),
        forall|c: int| #[trigger]
            spec_leads(spec_queue(registry@, ext_view(ext)), buf@, c) ==> (r matches Ok(image)
                && image.raster@ == spec_decoded(
                spec_queue(registry@, ext_view(ext))[c].kind,
                buf@,
            ) && image.format_label@ == spec_label(
                spec_queue(registry@, ext_view(ext))[c],
                spec_sniffed_label(buf@),
            )),
{
    let ghost queue = spec_queue(registry@, ext_view(ext));
    let ghost sniffed = spec_sniffed_label(buf@);
    let mut d = Dispatch::new(registry, ext);
    let mut action = d.step(Event::Begin);
    proof {
        crate::registry::lemma_order_is_permutation(registry@, ext_view(ext));
    }
    loop
        invariant
            d.wf(),
            d.queue@ == queue,
            queue == spec_queue(registry@, ext_view(ext)),
            sniffed == spec_sniffed_label(buf@),
            forall|i: int|
                0 <= i < registry@.len() ==> 0 <= #[trigger] crate::registry::spec_order(
                    registry@,
                    ext_view(ext),
                )[i] < registry@.len(),
            forall|i: int|
                0 <= i < registry@.len() ==> #[trigger] crate::registry::occurs(
                    crate::registry::spec_order(registry@, ext_view(ext)),
                    i,
                ),
            forall|k: int| 0 <= k < d.cursor ==> !spec_succeeds((#[trigger] queue[k]).kind, buf@),
            match action {
                Action::Attempt(_) => action == d.spec_pending() && !d.exhausted(),
                Action::Abandon(e) => e == DecodeError::NoLoaderSucceeded && d.exhausted(),
                Action::Deliver(image) => {
                    &&& image.wf()
                    &&& !d.exhausted()
                    &&& image.format_label@ == spec_label(queue[d.cursor as int], sniffed)
                    &&& !spec_fails(queue[d.cursor as int].kind, buf@)
                    &&& spec_succeeds(queue[d.cursor as int].kind, buf@) ==> image.raster@
                        == spec_decoded(queue[d.cursor as int].kind, buf@)
                },
            },
        decreases 2 * (queue.len() - d.cursor) + if action is Attempt { 1int } else { 0int },
    {
        match action {
            Action::Attempt(kind) => {
                let event = match attempt(kind, buf) {
                    Ok(raster) => Event::Decoded(raster, sniff_for(kind, buf)),
                    Err(_) => Event::Failed,
                };
                action = d.step(event);
            },
            Action::Deliver(image) => {
                proof {
                    let at = d.cursor as int;
                    let i = crate::registry::spec_order(registry@, ext_view(ext))[at];
                    assert(queue[at] == registry@[i]);
                    assert forall|c: int| #[trigger] spec_leads(queue, buf@, c) implies c == at by {
                        if c < at {
                            assert(!spec_succeeds(queue[c].kind, buf@));
                        } else if c > at {
                            assert(spec_fails(queue[at].kind, buf@));
                        }
                    }
                }
                return Ok(image);
            },
            Action::Abandon(e) => {
                proof {
                    assert forall|i: int| 0 <= i < registry@.len() implies !spec_succeeds(
                        (#[trigger] registry@[i]).kind,
                        buf@,
                    ) by {
                        assert(crate::registry::occurs(
                            crate::registry::spec_order(registry@, ext_view(ext)),
                            i,
                        ));
                        let k = choose|k: int|
                            0 <= k < registry@.len() && #[trigger] crate::registry::spec_order(
                                registry@,
                                ext_view(ext),
                            )[k] == i;
                        assert(queue[k] == registry@[i]);
                    }
                    assert forall|c: int| #[trigger] spec_leads(queue, buf@, c) implies false by {
                        assert(!spec_succeeds(queue[c].kind, buf@));
                    }
                }
                return Err(e);
            },
        }
    }
}

/// True where the extension is the tag of a candidate of the default
/// registry that may decode a buffer before the RAW one is tried.
pub open spec fn spec_overtakes_raw(ext: Option<Seq<char>>) -> bool {
    ext == Some("svg"@) || ext == Some("default"@)
}

/// The labels that the default registry can give an image, but for those
/// that come from the signature of a bitmap.
pub open spec fn spec_is_default_tag(label: Seq<char>) -> bool {
    label == "raw"@ || label == "svg"@ || label == "heif"@ || label == "jxl"@ || label
        == "default"@
}

/// The label of an image that the generic bitmap decoder gave under the tag
/// `default`: what the signature of the buffer says, or else the tag.
pub open spec fn spec_bitmap_label(bytes: Seq<u8>) -> Seq<char> {
    match spec_sniffed_label(bytes) {
        Some(label) => label,
        None => "default"@,
    }
}

/// Decodes an image file held in memory, whatever its format, trying the
/// candidates of the default registry, the one whose tag is the extension
/// first.
///
/// The candidates for HEIF and JPEG XL count as failed here: their decoders
/// live with the caller, who drives a [`Dispatch`] itself to include them.
/// Unless the extension is `svg` or `default`, a buffer that develops as RAW
/// gives exactly the developed image, labelled `raw`. Under the extension
/// `default`, a buffer that decodes as a bitmap gives exactly that bitmap,
/// labelled by its signature. The dispatch fails only on a buffer that
/// neither develops as RAW nor decodes as a bitmap.
pub fn get_image(buf: &Vec<u8>, ext: Option<&str>) -> (r: Result<DecodedImage, DecodeError>)
    ensures
        r matches Err(e) ==> e == DecodeError::NoLoaderSucceeded && spec_raw_outcome(
            rawloader_decode(buf@),
        ) is Err && spec_bitmap_outcome(decoded_rgba8(buf@)) is Err,
        r matches Ok(image) ==> image.wf() && (spec_is_default_tag(image.format_label@) || Some(
            image.format_label@,
        ) == spec_sniffed_label(buf@)),
        !spec_overtakes_raw(ext_view(ext)) && spec_raw_outcome(rawloader_decode(buf@)) is Ok ==> (r
            matches Ok(image) && image.raster@ == spec_raw_outcome(rawloader_decode(buf@))->Ok_0
            && image.format_label@ == "raw"@),
        ext_view(ext) == Some("default"@) && spec_bitmap_outcome(decoded_rgba8(buf@)) is Ok ==> (r
            matches Ok(image) && image.raster@ == spec_bitmap_outcome(decoded_rgba8(buf@))->Ok_0
            && image.format_label@ == spec_bitmap_label(buf@)),
{
    let registry = default_registry();
    let r = get_image_with(&registry, buf, ext);
    proof {
        let queue = spec_queue(registry@, ext_view(ext));
        lemma_default_queue(registry@, ext_view(ext));
        assert(registry@[0].kind == LoaderKind::Raw);
        assert(registry@[4].kind == LoaderKind::Bitmap);
        if !spec_overtakes_raw(ext_view(ext)) && spec_raw_outcome(rawloader_decode(buf@)) is Ok {
            if ext_view(ext) == Some("heif"@) || ext_view(ext) == Some("jxl"@) {
                assert(spec_fails(queue[0].kind, buf@));
                assert(spec_leads(queue, buf@, 1));
            } else {
                assert(spec_leads(queue, buf@, 0));
            }
        }
        if ext_view(ext) == Some("default"@) && spec_bitmap_outcome(decoded_rgba8(buf@)) is Ok {
            assert(spec_leads(queue, buf@, 0));
        }
    }
    r
}

/// The head of the queue that the default registry gives for an extension.
proof fn lemma_default_queue(registry: Seq<LoaderCandidate>, ext: Option<Seq<char>>)
    requires
        registry.len() == 5,
        registry[0].tag@ == "raw"@,
        registry[1].tag@ == "svg"@,
        registry[2].tag@ == "heif"@,
        registry[3].tag@ == "jxl"@,
        registry[4].tag@ == "default"@,
    ensures
        ext == Some("default"@) ==> spec_queue(registry, ext)[0] == registry[4],
        ext == Some("heif"@) ==> spec_queue(registry, ext)[0] == registry[2] && spec_queue(
            registry,
            ext,
        )[1] == registry[0],
        ext == Some("jxl"@) ==> spec_queue(registry, ext)[0] == registry[3] && spec_queue(
            registry,
            ext,
        )[1] == registry[0],
        ext != Some("svg"@) && ext != Some("heif"@) && ext != Some("jxl"@) && ext != Some(
            "default"@,
        ) ==> spec_queue(registry, ext)[0] == registry[0],
{
    reveal_with_fuel(crate::registry::spec_first_match, 6);
    reveal_strlit("raw");
    reveal_strlit("svg");
    reveal_strlit("heif");
    reveal_strlit("jxl");
    reveal_strlit("default");
    assert("raw"@[0] == 'r' && "svg"@[0] == 's' && "heif"@[0] == 'h' && "jxl"@[0] == 'j'
        && "default"@[0] == 'd');
    if ext is Some {
        let e = ext->Some_0;
        crate::registry::lemma_first_match(registry, e, 0);
    }
}

} // verus!
