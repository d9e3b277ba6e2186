use vstd::prelude::*;
use vstd::string::StringExecFns;

verus! {

/// Where the writing of one output directory stands. The stages follow one
/// another in this order, and none is entered twice.
#[derive(Debug, Clone, Copy, PartialEq, Eq, Structural)]
pub enum DirectoryStage {
    Open,
    DescriptiveTags,
    GeometryAndColorTags,
    TileData,
    OffsetTables,
    Closed,
}

/// The stage that follows `s`; a closed directory stays closed.
pub open spec fn next_stage(s: DirectoryStage) -> DirectoryStage {
    match s {
        DirectoryStage::Open => DirectoryStage::DescriptiveTags,
        DirectoryStage::DescriptiveTags => DirectoryStage::GeometryAndColorTags,
        DirectoryStage::GeometryAndColorTags => DirectoryStage::TileData,
        DirectoryStage::TileData => DirectoryStage::OffsetTables,
        DirectoryStage::OffsetTables => DirectoryStage::Closed,
        DirectoryStage::Closed => DirectoryStage::Closed,
    }
}

/// Tracks one output directory: its stage, and for each tile written so far
/// its absolute offset and byte count, index for index.
pub struct DirectoryBuilder {
    stage: DirectoryStage,
    offsets: Vec<u64>,
    byte_counts: Vec<u64>,
}

impl DirectoryBuilder {
    pub closed spec fn stage(&self) -> DirectoryStage {
        self.stage
    }

    /// Offsets of the tiles written so far, in the order they were written.
    pub closed spec fn offsets(&self) -> Seq<u64> {
        self.offsets@
    }

    /// Byte counts of the tiles written so far, in the order they were written.
    pub closed spec fn byte_counts(&self) -> Seq<u64> {
        self.byte_counts@
    }

    /// One byte count per offset, and no tile before the tile data begins.
    /// Every builder that `new` and the methods hand out has it.
    pub open spec fn wf(&self) -> bool {
        &&& self.offsets().len() == self.byte_counts().len()
        &&& (self.stage() == DirectoryStage::Open || self.stage() == DirectoryStage::DescriptiveTags
            || self.stage() == DirectoryStage::GeometryAndColorTags) ==> self.offsets().len() == 0
    }

    pub fn new() -> (r: Self)
        ensures
            r.wf(),
            r.stage() == DirectoryStage::Open,
            r.offsets().len() == 0,
            r.byte_counts().len() == 0,
    {
        DirectoryBuilder { stage: DirectoryStage::Open, offsets: Vec::new(), byte_counts: Vec::new() }
    }

    pub fn current_stage(&self) -> (r: DirectoryStage)
        ensures
            r == self.stage(),
    {
        self.stage
    }

    /// Moves to the next stage and returns true, except from the tile data,
    /// which only `take_offset_tables` ends, and from a closed directory, which
    /// is never reopened: there it changes nothing and returns false.
    pub fn advance(&mut self) -> (r: bool)
        requires
            old(self).wf(),
        ensures
            final(self).wf(),
            r == (old(self).stage() != DirectoryStage::TileData && old(self).stage() != DirectoryStage::Closed),
            final(self).stage() == (if r { next_stage(old(self).stage()) } else { old(self).stage() }),
            final(self).offsets() == old(self).offsets(),
            final(self).byte_counts() == old(self).byte_counts(),
    {
        let next = match self.stage {
            DirectoryStage::Open => DirectoryStage::DescriptiveTags,
            DirectoryStage::DescriptiveTags => DirectoryStage::GeometryAndColorTags,
            DirectoryStage::GeometryAndColorTags => DirectoryStage::TileData,
            DirectoryStage::OffsetTables => DirectoryStage::Closed,
            DirectoryStage::TileData | DirectoryStage::Closed => {
                return false;
            },
        };
        self.stage = next;
        true
    }

    /// Records that a tile of `byte_count` bytes was written at `offset` and
    /// returns true; outside the tile data it changes nothing and returns false.
    pub fn record_tile(&mut self, offset: u64, byte_count: u64) -> (r: bool)
        requires
            old(self).wf(),
        ensures
            final(self).wf(),
            r == (old(self).stage() == DirectoryStage::TileData),
            final(self).stage() == old(self).stage(),
            r ==> final(self).offsets() == old(self).offsets().push(offset),
            r ==> final(self).byte_counts() == old(self).byte_counts().push(byte_count),
            !r ==> final(self).offsets() == old(self).offsets(),
            !r ==> final(self).byte_counts() == old(self).byte_counts(),
    {
        if self.stage != DirectoryStage::TileData {
            return false;
        }
        self.offsets.push(offset);
        self.byte_counts.push(byte_count);
        true
    }

    /// Ends the tile data and hands out the offset and byte-count tables, one
    /// entry per recorded tile; outside the tile data it changes nothing and
    /// returns `None`.
    pub fn take_offset_tables(&mut self) -> (r: Option<(Vec<u64>, Vec<u64>)>)
        requires
            old(self).wf(),
        ensures
            final(self).wf(),
            r is Some == (old(self).stage() == DirectoryStage::TileData),
            r is Some ==> final(self).stage() == DirectoryStage::OffsetTables,
            r is None ==> final(self).stage() == old(self).stage(),
            final(self).offsets() == old(self).offsets(),
            final(self).byte_counts() == old(self).byte_counts(),
            r is Some ==> r->Some_0.0@ == old(self).offsets() && r->Some_0.1@ == old(self).byte_counts(),
            r is Some ==> r->Some_0.0@.len() == r->Some_0.1@.len(),
    {
        if self.stage != DirectoryStage::TileData {
            return None;
        }
        self.stage = DirectoryStage::OffsetTables;
        Some((self.offsets.clone(), self.byte_counts.clone()))
    }
}

/// The free-text description that viewers read the resolution from.
pub fn image_description(microns_per_pixel: &String) -> (r: String)
    ensures
        r@ == "Aperio\n|MPP="@ + microns_per_pixel@,
{
    String::from_str("Aperio\n|MPP=").concat(microns_per_pixel.as_str())
}

} // verus!
