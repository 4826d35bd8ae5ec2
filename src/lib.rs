//! Screen capture through the desktop duplication facility.
//!
//! The library holds the verified part of a capture engine: the pixel types,
//! the copy of a mapped surface into an upright, tightly packed frame, the
//! assembly of per-frame change metadata, the classification of platform
//! failures and the session state machine that decides when the duplication
//! channel must be bound again.
pub mod error;
pub mod frame;
pub mod metadata;
pub mod pixel;
pub mod search;
pub mod session;

pub use error::{
    capture_error_from_code, hr_failed, CaptureError, OutputDuplicationError,
};
pub use frame::{
    copy_frame_components, copy_frame_native, copy_frame_pixels, desktop_size, frame_dimensions,
    Rotation,
};
pub use metadata::{assemble_metadata, FrameInfo, FrameMetadata, MoveRect};
pub use pixel::{bgra_to_rgba, bgra_to_rgba_scalar, BGRA8};
pub use search::{AdapterProbe, OutputProbe, OutputSearch, SearchStep};
pub use session::{SessionModel, SessionState};
