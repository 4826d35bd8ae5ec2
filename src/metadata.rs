//! Per-frame change metadata: dirty rectangles, moved rectangles, pointer and
//! timing information, assembled from what the platform reports for a frame.
use vstd::prelude::*;

verus! {

/// Size in bytes of one dirty rectangle record in the platform's buffer.
pub const DIRTY_RECT_RECORD_SIZE: u32 = 16;

/// Size in bytes of one move record in the platform's buffer.
pub const MOVE_RECT_RECORD_SIZE: u32 = 24;

/// A region moved from one place of the desktop to another.
#[derive(Copy, Clone, Debug, PartialEq, Eq)]
pub struct MoveRect {
    /// Top-left corner the content was moved from.
    pub source_point: (i32, i32),
    /// Rectangle the content was moved to: (left, top, right, bottom).
    pub destination_rect: (i32, i32, i32, i32),
}

/// Metadata about a captured frame.
#[derive(Clone, Debug)]
pub struct FrameMetadata {
    /// Timestamp of the last desktop image update; 0 when none since binding.
    pub last_present_time: i64,
    /// Timestamp of the last pointer update; 0 when none since binding.
    pub last_mouse_update_time: i64,
    /// Number of frames merged into this one.
    pub accumulated_frames: u32,
    /// Whether the dirty rectangles were merged and may cover unchanged pixels.
    pub rects_coalesced: bool,
    /// Whether protected content was blacked out in the frame.
    pub protected_content_masked_out: bool,
    /// Pointer position, present when the pointer is visible.
    pub pointer_position: Option<(i32, i32)>,
    /// Whether the pointer is visible.
    pub pointer_visible: bool,
    /// Rectangles changed since the last frame: (left, top, right, bottom).
    pub dirty_rects: Vec<(i32, i32, i32, i32)>,
    /// Regions moved since the last frame.
    pub move_rects: Vec<MoveRect>,
}

/// The fixed part of what the platform reports with an acquired frame.
#[derive(Copy, Clone, Debug, PartialEq, Eq, Structural)]
pub struct FrameInfo {
    pub last_present_time: i64,
    pub last_mouse_update_time: i64,
    pub accumulated_frames: u32,
    pub rects_coalesced: bool,
    pub protected_content_masked_out: bool,
    pub pointer_visible: bool,
    pub pointer_x: i32,
    pub pointer_y: i32,
    /// Bytes of dirty and move records the frame carries; 0 when it carries none.
    pub total_metadata_buffer_size: u32,
}

/// Whether a rectangle is non-empty and lies within a `w` by `h` frame.
pub open spec fn rect_within(r: (i32, i32, i32, i32), w: int, h: int) -> bool {
    &&& 0 <= r.0 < r.2 <= w
    &&& 0 <= r.1 < r.3 <= h
}

/// Whether a move record's destination lies within a `w` by `h` frame and its
/// source point is non-negative.
pub open spec fn move_within(m: MoveRect, w: int, h: int) -> bool {
    &&& rect_within(m.destination_rect, w, h)
    &&& m.source_point.0 >= 0
    &&& m.source_point.1 >= 0
}

impl FrameMetadata {
    /// Whether every dirty rectangle and every move record lies within a `w`
    /// by `h` frame.
    pub open spec fn within(&self, w: int, h: int) -> bool {
        &&& forall|i: int| 0 <= i < self.dirty_rects@.len() ==> rect_within(#[trigger] self.dirty_rects@[i], w, h)
        &&& forall|i: int| 0 <= i < self.move_rects@.len() ==> move_within(#[trigger] self.move_rects@[i], w, h)
    }

    /// Returns true if the frame carries any dirty or moved region.
    pub fn has_updates(&self) -> (r: bool)
        ensures
            r == (self.dirty_rects@.len() > 0 || self.move_rects@.len() > 0),
    {
        !self.dirty_rects.is_empty() || !self.move_rects.is_empty()
    }

    /// Returns true if the pointer has been updated since binding.
    pub fn has_mouse_updates(&self) -> (r: bool)
        ensures
            r == (self.last_mouse_update_time > 0),
    {
        self.last_mouse_update_time > 0
    }

    /// Returns the number of changed regions, dirty and moved.
    pub fn total_change_count(&self) -> (r: usize)
        requires
            self.dirty_rects@.len() + self.move_rects@.len() <= usize::MAX,
        ensures
            r == self.dirty_rects@.len() + self.move_rects@.len(),
    {
        self.dirty_rects.len() + self.move_rects.len()
    }
}

/// Whether a frame carries dirty or move records worth querying.
pub fn carries_change_records(info: &FrameInfo) -> (r: bool)
    ensures
        r == (info.total_metadata_buffer_size > 0),
{
    info.total_metadata_buffer_size > 0
}

/// Number of whole records of `record_size` bytes in a buffer of `buffer_size` bytes.
pub fn record_count(buffer_size: u32, record_size: u32) -> (r: usize)
    requires
        record_size > 0,
    ensures
        r == buffer_size / record_size,
{
    (buffer_size / record_size) as usize
}

/// Whether `m` is the metadata of a frame with fixed information `info`.
///
/// `dirty` and `moves` are the records read for the frame, `None` where the
/// query failed: metadata is advisory, so a failed query leaves its list empty.
/// A frame that carries no record buffer has both lists empty. The pointer
/// position is present exactly when the pointer is visible.
pub open spec fn assembled_metadata_fields(
    info: FrameInfo,
    dirty: Option<Seq<(i32, i32, i32, i32)>>,
    moves: Option<Seq<MoveRect>>,
    m: FrameMetadata,
) -> bool {
    &&& m.last_present_time == info.last_present_time
    &&& m.last_mouse_update_time == info.last_mouse_update_time
    &&& m.accumulated_frames == info.accumulated_frames
    &&& m.rects_coalesced == info.rects_coalesced
    &&& m.protected_content_masked_out == info.protected_content_masked_out
    &&& m.pointer_visible == info.pointer_visible
    &&& m.pointer_position == if info.pointer_visible {
        Some((info.pointer_x, info.pointer_y))
    } else {
        None
    }
    &&& m.dirty_rects@ == match dirty {
        Some(d) if info.total_metadata_buffer_size > 0 => d,
        _ => Seq::empty(),
    }
    &&& m.move_rects@ == match moves {
        Some(v) if info.total_metadata_buffer_size > 0 => v,
        _ => Seq::empty(),
    }
}

/// Assembles a frame's metadata from the fixed frame information and the
/// dirty and move records read for it (`None` where reading failed).
pub fn assemble_metadata(
    info: &FrameInfo,
    dirty: Option<Vec<(i32, i32, i32, i32)>>,
    moves: Option<Vec<MoveRect>>,
) -> (m: FrameMetadata)
    ensures
        assembled_metadata_fields(
            *info,
            match dirty {
                Some(d) => Some(d@),
                None => None,
            },
            match moves {
                Some(v) => Some(v@),
                None => None,
            },
            m,
        ),
{
    let carries = carries_change_records(info);
    let dirty_rects = match dirty {
        Some(d) if carries => d,
        _ => Vec::new(),
    };
    let move_rects = match moves {
        Some(v) if carries => v,
        _ => Vec::new(),
    };
    let pointer_position = if info.pointer_visible {
        Some((info.pointer_x, info.pointer_y))
    } else {
        None
    };
    FrameMetadata {
        last_present_time: info.last_present_time,
        last_mouse_update_time: info.last_mouse_update_time,
        accumulated_frames: info.accumulated_frames,
        rects_coalesced: info.rects_coalesced,
        protected_content_masked_out: info.protected_content_masked_out,
        pointer_position,
        pointer_visible: info.pointer_visible,
        dirty_rects,
        move_rects,
    }
}

/// Metadata assembled from records that lie within a `w` by `h` frame lies
/// within that frame too.
pub proof fn lemma_assembled_within(
    info: FrameInfo,
    dirty: Option<Seq<(i32, i32, i32, i32)>>,
    moves: Option<Seq<MoveRect>>,
    m: FrameMetadata,
    w: int,
    h: int,
)
    requires
        assembled_metadata_fields(info, dirty, moves, m),
        dirty matches Some(d) ==> forall|i: int| 0 <= i < d.len() ==> rect_within(#[trigger] d[i], w, h),
        moves matches Some(v) ==> forall|i: int| 0 <= i < v.len() ==> move_within(#[trigger] v[i], w, h),
    ensures
        m.within(w, h),
{
}

} // verus!
