use vstd::prelude::*;
use visioncortex::CompoundPath;
use crate::color::Rgba;

verus! {

/// One emitted path of the output document: the extracted compound path, its
/// fill color and the output coordinate precision. The ghost identifier
/// records which cluster the path came from, so emission order can be stated.
pub struct PathEntry {
    pub path: CompoundPath,
    pub color: Rgba,
    pub precision: u32,
    pub id: Ghost<u32>,
}

/// The output path document: an ordered list of paths. New paths are
/// prepended, so earlier-emitted clusters render on top.
pub struct SvgDocument {
    pub entries: Vec<PathEntry>,
}

impl View for SvgDocument {
    type V = Seq<PathEntry>;

    open spec fn view(&self) -> Seq<PathEntry> {
        self.entries@
    }
}

impl SvgDocument {
    /// An empty document.
    pub fn new() -> (d: SvgDocument)
        ensures
            d@.len() == 0,
    {
        SvgDocument { entries: Vec::new() }
    }

    /// Inserts a path as the new first element of the list.
    pub(crate) fn prepend(&mut self, entry: PathEntry)
        ensures
            final(self)@.len() == old(self)@.len() + 1,
            final(self)@[0] == entry,
            forall|j: int| 1 <= j < final(self)@.len() ==> final(self)@[j] == old(self)@[j - 1],
    {
        self.entries.insert(0, entry);
    }

    /// The number of paths in the document.
    pub fn len(&self) -> (n: usize)
        ensures
            n == self@.len(),
    {
        self.entries.len()
    }
}

} // verus!
