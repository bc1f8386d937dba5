use vstd::prelude::*;
use vstd::string::*;

verus! {

/// The decoders that a candidate can stand for.
#[derive(Clone, Copy, Debug, PartialEq, Eq, Structural)]
pub enum LoaderKind {
    Raw,
    Svg,
    Heif,
    JpegXl,
    Bitmap,
}

/// An entry of the registry: a decoder under the tag that file extensions
/// are matched against.
#[derive(Debug, PartialEq, Eq)]
pub struct LoaderCandidate {
    pub tag: String,
    pub kind: LoaderKind,
}

impl LoaderCandidate {
    /// A candidate of the given tag and kind.
    pub fn new(tag: &str, kind: LoaderKind) -> (r: LoaderCandidate)
        ensures
            r.tag@ == tag@,
            r.kind == kind,
    {
        LoaderCandidate { tag: String::from_str(tag), kind }
    }

    /// A copy of the candidate.
    pub fn duplicate(&self) -> (r: LoaderCandidate)
        ensures
            r == *self,
    {
        LoaderCandidate { tag: self.tag.clone(), kind: self.kind }
    }
}

/// The registry in its declared order: RAW, SVG, HEIF, JPEG XL, and the
/// generic bitmap decoder last.
pub fn default_registry() -> (r: Vec<LoaderCandidate>)
    ensures
        r@.len() == 5,
        r@[0].tag@ == "raw"@ && r@[0].kind == LoaderKind::Raw,
        r@[1].tag@ == "svg"@ && r@[1].kind == LoaderKind::Svg,
        r@[2].tag@ == "heif"@ && r@[2].kind == LoaderKind::Heif,
        r@[3].tag@ == "jxl"@ && r@[3].kind == LoaderKind::JpegXl,
        r@[4].tag@ == "default"@ && r@[4].kind == LoaderKind::Bitmap,
{
    let mut r: Vec<LoaderCandidate> = Vec::with_capacity(5);
    r.push(LoaderCandidate::new("raw", LoaderKind::Raw));
    r.push(LoaderCandidate::new("svg", LoaderKind::Svg));
    r.push(LoaderCandidate::new("heif", LoaderKind::Heif));
    r.push(LoaderCandidate::new("jxl", LoaderKind::JpegXl));
    r.push(LoaderCandidate::new("default", LoaderKind::Bitmap));
    r
}

/// The name under which a format label is shown: the labels that are tags of
/// the default registry have names of their own, any other label is shown
/// as it is.
pub open spec fn spec_display_name(label: Seq<char>) -> Seq<char> {
    if label == "default"@ {
        "Unknown"@
    } else if label == "raw"@ {
        "RAW"@
    } else if label == "svg"@ {
        "SVG"@
    } else if label == "heif"@ {
        "HEIF"@
    } else if label == "jxl"@ {
        "JPEG XL"@
    } else {
        label
    }
}

/// The name under which a format label is shown.
pub fn display_name(label: &str) -> (r: String)
    ensures
        r@ == spec_display_name(label@),
{
    let owned = String::from_str(label);
    if owned == String::from_str("default") {
        String::from_str("Unknown")
    } else if owned == String::from_str("raw") {
        String::from_str("RAW")
    } else if owned == String::from_str("svg") {
        String::from_str("SVG")
    } else if owned == String::from_str("heif") {
        String::from_str("HEIF")
    } else if owned == String::from_str("jxl") {
        String::from_str("JPEG XL")
    } else {
        owned
    }
}

/// The position of the first candidate from `from` on whose tag is `ext`, or
/// the length of the registry where there is none.
pub open spec fn spec_first_match(registry: Seq<LoaderCandidate>, ext: Seq<char>, from: int) -> int
    decreases registry.len() - from,
{
    if from < 0 || from >= registry.len() {
        registry.len() as int
    } else if registry[from].tag@ == ext {
        from
    } else {
        spec_first_match(registry, ext, from + 1)
    }
}

/// The position of the candidate that goes first: the first whose tag is the
/// extension, or the length of the registry where none is or no extension is
/// given.
pub open spec fn spec_leader(registry: Seq<LoaderCandidate>, ext: Option<Seq<char>>) -> int {
    match ext {
        Some(e) => spec_first_match(registry, e, 0),
        None => registry.len() as int,
    }
}

/// The order in which the candidates are tried, as positions in the
/// registry: the leader first, then the others in their declared order.
pub open spec fn spec_order(registry: Seq<LoaderCandidate>, ext: Option<Seq<char>>) -> Seq<int> {
    let n = registry.len() as int;
    let m = spec_leader(registry, ext);
    Seq::new(
        registry.len(),
        |i: int|
            if m >= n {
                i
            } else if i == 0 {
                m
            } else if i <= m {
                i - 1
            } else {
                i
            },
    )
}

/// The candidates in the order in which they are tried.
pub open spec fn spec_queue(
    registry: Seq<LoaderCandidate>,
    ext: Option<Seq<char>>,
) -> Seq<LoaderCandidate> {
    Seq::new(registry.len(), |i: int| registry[spec_order(registry, ext)[i]])
}

/// The first match is a match, and no candidate before it is one.
pub proof fn lemma_first_match(registry: Seq<LoaderCandidate>, ext: Seq<char>, from: int)
    requires
        0 <= from <= registry.len(),
    ensures
        from <= spec_first_match(registry, ext, from) <= registry.len(),
        spec_first_match(registry, ext, from) < registry.len() ==> registry[spec_first_match(
            registry,
            ext,
            from,
        )].tag@ == ext,
        forall|k: int|
            from <= k < spec_first_match(registry, ext, from) ==> (#[trigger] registry[k]).tag@
                != ext,
    decreases registry.len() - from,
{
    if from < registry.len() && registry[from].tag@ != ext {
        lemma_first_match(registry, ext, from + 1);
    }
}

/// Finds the first candidate whose tag is the extension.
pub fn first_match(registry: &Vec<LoaderCandidate>, ext: &str) -> (r: usize)
    ensures
        r == spec_first_match(registry@, ext@, 0),
        r <= registry@.len(),
{
    let wanted = String::from_str(ext);
    let mut i: usize = 0;
    while i < registry.len()
        invariant
            i <= registry@.len(),
            wanted@ == ext@,
            spec_first_match(registry@, ext@, 0) == spec_first_match(registry@, ext@, i as int),
        decreases registry@.len() - i,
    {
        if registry[i].tag == wanted {
            return i;
        }
        i += 1;
    }
    i
}

/// Builds the list of candidates for one call: the one whose tag is the
/// extension goes first, the others follow in their declared order. The
/// registry itself is left as it is.
pub fn prioritize(registry: &Vec<LoaderCandidate>, ext: Option<&str>) -> (queue: Vec<
    LoaderCandidate,
>)
    ensures
        queue@ == spec_queue(
            registry@,
            match ext {
                Some(e) => Some(e@),
                None => None,
            },
        ),
{
    let n = registry.len();
    let leader = match ext {
        Some(e) => first_match(registry, e),
        None => n,
    };
    let ghost ext_view: Option<Seq<char>> = match ext {
        Some(e) => Some(e@),
        None => None,
    };
    let ghost goal = spec_queue(registry@, ext_view);
    let mut queue: Vec<LoaderCandidate> = Vec::with_capacity(n);
    if leader < n {
        queue.push(registry[leader].duplicate());
    }
    let mut i: usize = 0;
    while i < n
        invariant
            n == registry@.len(),
            leader == spec_leader(registry@, ext_view),
            leader <= n,
            goal == spec_queue(registry@, ext_view),
            i <= n,
            queue@.len() == if leader < n && i <= leader {
                i + 1
            } else {
                i as int
            },
            forall|k: int| 0 <= k < queue@.len() ==> queue@[k] == goal[k],
        decreases n - i,
    {
        if i != leader {
            queue.push(registry[i].duplicate());
        }
        i += 1;
    }
    assert(queue@ =~= goal);
    queue
}

/// Position `k` of the registry occurs in the order.
pub open spec fn occurs(order: Seq<int>, k: int) -> bool {
    exists|i: int| 0 <= i < order.len() && #[trigger] order[i] == k
}

/// The order is a rearrangement of the registry: every position occurs in
/// it, and none twice.
pub proof fn lemma_order_is_permutation(registry: Seq<LoaderCandidate>, ext: Option<Seq<char>>)
    ensures
        spec_order(registry, ext).len() == registry.len(),
        forall|i: int|
            0 <= i < registry.len() ==> 0 <= #[trigger] spec_order(registry, ext)[i]
                < registry.len(),
        forall|i: int, j: int|
            0 <= i < j < registry.len() ==> #[trigger] spec_order(registry, ext)[i]
                != #[trigger] spec_order(registry, ext)[j],
        forall|k: int| 0 <= k < registry.len() ==> #[trigger] occurs(spec_order(registry, ext), k),
{
    let n = registry.len() as int;
    let m = spec_leader(registry, ext);
    if ext is Some {
        lemma_first_match(registry, ext->Some_0, 0);
    }
    let order = spec_order(registry, ext);
    assert forall|k: int| 0 <= k < n implies #[trigger] occurs(order, k) by {
        let i = if m >= n {
            k
        } else if k == m {
            0
        } else if k < m {
            k + 1
        } else {
            k
        };
        assert(order[i] == k);
    }
}

/// A candidate whose tag is the extension goes first, whatever its place in
/// the registry; where several have that tag, the first of them does.
pub proof fn lemma_match_goes_first(registry: Seq<LoaderCandidate>, ext: Seq<char>, k: int)
    requires
        0 <= k < registry.len(),
        registry[k].tag@ == ext,
    ensures
        spec_queue(registry, Some(ext))[0].tag@ == ext,
        0 <= spec_order(registry, Some(ext))[0] <= k,
        spec_order(registry, Some(ext))[0] == spec_first_match(registry, ext, 0),
{
    lemma_first_match(registry, ext, 0);
}

/// Behind the first place the candidates keep their declared order, and
/// where no tag is the extension, or none is given, the order is the
/// declared one throughout.
pub proof fn lemma_rest_keeps_order(registry: Seq<LoaderCandidate>, ext: Option<Seq<char>>)
    ensures
        forall|i: int, j: int|
            1 <= i < j < registry.len() ==> #[trigger] spec_order(registry, ext)[i]
                < #[trigger] spec_order(registry, ext)[j],
        spec_leader(registry, ext) >= registry.len() ==> spec_queue(registry, ext) == registry,
        ext is None ==> spec_queue(registry, ext) == registry,
{
    if ext is Some {
        lemma_first_match(registry, ext->Some_0, 0);
    }
    if spec_leader(registry, ext) >= registry.len() {
        assert(spec_queue(registry, ext) =~= registry);
    }
}

} // verus!
