//! The logic of a desktop shell's window focus switching and application
//! launcher: a search for the nearest window in a direction, the line
//! protocol spoken with the launcher backend, the state of the link to the
//! backend, and the launcher's result slots and cursor.

pub mod focus;
pub mod geometry;
pub mod previews;
pub mod protocol;
pub mod session;
pub mod theme;
pub mod transport;

pub use focus::{find_target, WindowRef};
pub use geometry::{Direction, Rectangle};
pub use previews::{Placement, WsPreviewMonitor};
pub use protocol::{
    decode_response, encode_request, GpuChoice, IconRef, LaunchOption, LauncherRequest,
    LauncherResponse, LauncherResult, TransportError,
};
pub use session::{
    entry_to_launch, KeyAction, LauncherItem, LauncherKey, LauncherSession, LauncherUi,
    SLOT_COUNT,
};
pub use theme::{Rgba, Theme};
pub use transport::{LinkState, Phase};
