use vstd::prelude::*;
use vstd::string::*;

verus! {

/// Number of quarter turns after which a view is upright again.
pub const QUARTER_TURNS: u8 = 4;

/// The quarter turns of a view after one more turn clockwise.
pub open spec fn spec_next_rotation(rotation: u8) -> u8 {
    if rotation >= QUARTER_TURNS - 1 {
        0
    } else {
        (rotation + 1) as u8
    }
}

/// Turns a view one quarter further: 0, 1, 2, 3 and back to 0.
pub fn next_rotation(rotation: u8) -> (r: u8)
    ensures
        r == spec_next_rotation(rotation),
        r < QUARTER_TURNS,
{
    if rotation >= QUARTER_TURNS - 1 {
        0
    } else {
        rotation + 1
    }
}

/// Four quarter turns bring a view back to where it was.
pub proof fn lemma_rotation_cycle(rotation: u8)
    requires
        rotation < QUARTER_TURNS,
    ensures
        spec_next_rotation(
            spec_next_rotation(spec_next_rotation(spec_next_rotation(rotation))),
        ) == rotation,
{
}

/// True for the file extensions, in lower case, of the formats that can be
/// opened.
pub open spec fn spec_supported(ext: Seq<char>) -> bool {
    ext == "avif"@ || ext == "bmp"@ || ext == "dds"@ || ext == "ff"@ || ext == "gif"@ || ext
        == "hdr"@ || ext == "ico"@ || ext == "jpeg"@ || ext == "jpg"@ || ext == "exr"@ || ext
        == "png"@ || ext == "pnm"@ || ext == "qoi"@ || ext == "svg"@ || ext == "tga"@ || ext
        == "tiff"@ || ext == "webp"@ || ext == "heif"@ || ext == "jxl"@ || ext == "mrw"@ || ext
        == "arw"@ || ext == "srf"@ || ext == "sr2"@ || ext == "mef"@ || ext == "orf"@ || ext
        == "srw"@ || ext == "erf"@ || ext == "kdc"@ || ext == "dcs"@ || ext == "rw2"@ || ext
        == "raf"@ || ext == "dcr"@ || ext == "dng"@ || ext == "pef"@ || ext == "crw"@ || ext
        == "iiq"@ || ext == "3fr"@ || ext == "nrw"@ || ext == "nef"@ || ext == "mos"@ || ext
        == "cr2"@ || ext == "ari"@
}

/// The file extensions of the formats that can be opened.
pub fn supported_extensions() -> (r: Vec<&'static str>)
    ensures
        r@.len() == 42,
        forall|ext: Seq<char>|
            spec_supported(ext) <==> exists|i: int| 0 <= i < r@.len() && (#[trigger] r@[i])@ == ext,
{
    let r = vec![
        "avif", "bmp", "dds", "ff", "gif", "hdr", "ico", "jpeg", "jpg", "exr", "png", "pnm", "qoi",
        "svg", "tga", "tiff", "webp", "heif", "jxl", "mrw", "arw", "srf", "sr2", "mef", "orf",
        "srw", "erf", "kdc", "dcs", "rw2", "raf", "dcr", "dng", "pef", "crw", "iiq", "3fr", "nrw",
        "nef", "mos", "cr2", "ari",
    ];
    assert forall|ext: Seq<char>| spec_supported(ext) implies exists|i: int|
        0 <= i < r@.len() && (#[trigger] r@[i])@ == ext by {
        assert(r@[0]@ == "avif"@ && r@[1]@ == "bmp"@ && r@[2]@ == "dds"@ && r@[3]@ == "ff"@
            && r@[4]@ == "gif"@ && r@[5]@ == "hdr"@ && r@[6]@ == "ico"@ && r@[7]@ == "jpeg"@
            && r@[8]@ == "jpg"@ && r@[9]@ == "exr"@ && r@[10]@ == "png"@ && r@[11]@ == "pnm"@
            && r@[12]@ == "qoi"@ && r@[13]@ == "svg"@ && r@[14]@ == "tga"@ && r@[15]@ == "tiff"@
            && r@[16]@ == "webp"@ && r@[17]@ == "heif"@ && r@[18]@ == "jxl"@ && r@[19]@ == "mrw"@
            && r@[20]@ == "arw"@);
        assert(r@[21]@ == "srf"@ && r@[22]@ == "sr2"@ && r@[23]@ == "mef"@ && r@[24]@ == "orf"@
            && r@[25]@ == "srw"@ && r@[26]@ == "erf"@ && r@[27]@ == "kdc"@ && r@[28]@ == "dcs"@
            && r@[29]@ == "rw2"@ && r@[30]@ == "raf"@ && r@[31]@ == "dcr"@ && r@[32]@ == "dng"@
            && r@[33]@ == "pef"@ && r@[34]@ == "crw"@ && r@[35]@ == "iiq"@ && r@[36]@ == "3fr"@
            && r@[37]@ == "nrw"@ && r@[38]@ == "nef"@ && r@[39]@ == "mos"@ && r@[40]@ == "cr2"@
            && r@[41]@ == "ari"@);
    }
    r
}

/// Tells whether files of this extension, given in lower case, can be
/// opened.
pub fn is_supported_extension(ext: &str) -> (r: bool)
    ensures
        r == spec_supported(ext@),
{
    let list = supported_extensions();
    let wanted = String::from_str(ext);
    let mut i: usize = 0;
    while i < list.len()
        invariant
            i <= list@.len(),
            wanted@ == ext@,
            forall|e: Seq<char>|
                spec_supported(e) <==> exists|k: int|
                    0 <= k < list@.len() && (#[trigger] list@[k])@ == e,
            forall|k: int| 0 <= k < i ==> (#[trigger] list@[k])@ != ext@,
        decreases list@.len() - i,
    {
        if String::from_str(list[i]) == wanted {
            assert(list@[i as int]@ == ext@);
            return true;
        }
        i += 1;
    }
    false
}

/// The way through the files of a directory.
#[derive(Clone, Copy, Debug, PartialEq, Eq, Structural)]
pub enum Direction {
    Forward,
    Backward,
}

/// The position next to `index` among `count` files, going round at the
/// ends.
pub open spec fn spec_neighbour(index: int, count: int, direction: Direction) -> int {
    match direction {
        Direction::Forward => if index + 1 >= count {
            0
        } else {
            index + 1
        },
        Direction::Backward => if index <= 0 {
            count - 1
        } else {
            index - 1
        },
    }
}

/// The position next to `index` among `count` files.
pub fn neighbour(index: usize, count: usize, direction: Direction) -> (r: usize)
    requires
        index < count,
    ensures
        r == spec_neighbour(index as int, count as int, direction),
        r < count,
{
    match direction {
        Direction::Forward => if index + 1 >= count {
            0
        } else {
            index + 1
        },
        Direction::Backward => if index == 0 {
            count - 1
        } else {
            index - 1
        },
    }
}

/// Going forward and then backward, or backward and then forward, leads
/// back to the same file.
pub proof fn lemma_neighbour_inverse(index: int, count: int)
    requires
        0 <= index < count,
    ensures
        spec_neighbour(
            spec_neighbour(index, count, Direction::Forward),
            count,
            Direction::Backward,
        ) == index,
        spec_neighbour(
            spec_neighbour(index, count, Direction::Backward),
            count,
            Direction::Forward,
        ) == index,
{
}

/// What became of the file that the browser asked to have opened.
#[derive(Clone, Copy, Debug, PartialEq, Eq, Structural)]
pub enum BrowseEvent {
    /// Nothing yet: the browsing begins.
    Begin,
    /// The file was opened and is shown.
    Opened,
    /// The file holds no image.
    Unreadable,
}

/// What the browser wants done next.
#[derive(Clone, Copy, Debug, PartialEq, Eq, Structural)]
pub enum BrowseAction {
    /// Open the file at this position of the sorted directory listing.
    Open(usize),
    /// A file was opened: nothing is left to do.
    Rest,
    /// No file of the directory could be opened.
    GiveUp,
}

/// The state of one move to a neighbouring file: files that hold no image
/// are passed over, and when none is left the move is given up.
#[derive(Clone, Copy, Debug, PartialEq, Eq, Structural)]
pub struct Browse {
    /// Number of files in the listing.
    pub count: usize,
    /// Position of the file that was asked for last.
    pub index: usize,
    pub direction: Direction,
    /// Number of files found unreadable so far.
    pub failures: usize,
}

impl Browse {
    /// The position lies in the listing, and no more files failed than it
    /// holds.
    pub open spec fn wf(&self) -> bool {
        self.index < self.count && self.failures <= self.count
    }

    /// Begins a move from the file at `current` among `count` files. `None`
    /// where `current` is no position of the listing.
    pub fn start(count: usize, current: usize, direction: Direction) -> (r: Option<Browse>)
        ensures
            r is Some <==> current < count,
            r matches Some(b) ==> b.wf() && b == (Browse {
                count,
                index: spec_neighbour(current as int, count as int, direction) as usize,
                direction,
                failures: 0,
            }),
    {
        if current < count {
            Some(Browse { count, index: neighbour(current, count, direction), direction, failures: 0 })
        } else {
            None
        }
    }

    /// The state after an event.
    pub open spec fn spec_after(self, event: BrowseEvent) -> Browse {
        match event {
            BrowseEvent::Unreadable if self.failures < self.count => Browse {
                count: self.count,
                index: spec_neighbour(self.index as int, self.count as int, self.direction) as usize,
                direction: self.direction,
                failures: (self.failures + 1) as usize,
            },
            _ => self,
        }
    }

    /// What is asked for in answer to an event, seen from the state after it.
    pub open spec fn spec_answer(self, event: BrowseEvent) -> BrowseAction {
        match event {
            BrowseEvent::Opened => BrowseAction::Rest,
            _ => if self.failures >= self.count {
                BrowseAction::GiveUp
            } else {
                BrowseAction::Open(self.index)
            },
        }
    }

    /// Takes the outcome of the last request and says what to do next.
    pub fn step(&mut self, event: BrowseEvent) -> (action: BrowseAction)
        requires
            old(self).wf(),
        ensures
            final(self).wf(),
            *final(self) == old(self).spec_after(event),
            action == final(self).spec_answer(event),
    {
        match event {
            BrowseEvent::Begin => {},
            BrowseEvent::Opened => {
                return BrowseAction::Rest;
            },
            BrowseEvent::Unreadable => {
                if self.failures < self.count {
                    self.index = neighbour(self.index, self.count, self.direction);
                    self.failures = self.failures + 1;
                }
            },
        }
        if self.failures >= self.count {
            BrowseAction::GiveUp
        } else {
            BrowseAction::Open(self.index)
        }
    }
}

} // verus!
