//! Typed window-message decoding, per-window bound state and the value types
//! shared with window and drawing code.
//!
//! The platform hands a window procedure raw `(handle, code, word, long)`
//! messages. `translate` decodes them into `Event`s, `dispatch` runs one
//! message through a typed handler with an accessor (`The`) over the
//! window's bound state (`WindowBindData`), and `to_raw_return` turns the
//! handler's `Return` into the value the platform expects.
//!
//! The bound state lives from the window's first message to its last. On the
//! last message it is freed before the handler runs, so that handler, and
//! every accessor taken afterwards, sees no value.

pub mod class;
pub mod color;
pub mod dialog;
pub mod draw;
pub mod error;
pub mod events;
pub mod geometry;
pub mod handles;
pub mod paint;
pub mod safe_proc;
pub mod the;
pub mod window;
pub mod window_data;

pub use events::{
    vk_to_key, Button, ButtonStatus, CursorAt, Event, HotKeyFlags, Key, KeyStatus, MinMaxInfo,
    ModifierKey, NoClient, RefRect, Return, SizeChangeType, SizingSide, Wheel, WindowEvent,
};
pub use geometry::{Point, Rect, Size};
pub use handles::{Context, TimerId, WindowHandle, WindowId};
pub use safe_proc::{
    dispatch, dispatch_as, is_well_formed, lifecycle, to_raw_return, translate, Events, Lifecycle,
    Pointee,
};
pub use the::{The, TheMut, TheRef};
pub use window_data::{assert_cast, cast_checked, cast_for_message, TypeMismatch, WindowBindData};
