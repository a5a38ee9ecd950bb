//! Input glue between a host window's event loop and an immediate-mode GUI
//! context: which keys reach the GUI, where they land in its tables, how
//! modifier and mouse state are handed over once per frame, and which shader
//! dialect suits the graphics device.

pub mod events;
pub mod io;
pub mod keys;
pub mod mouse;
pub mod shaders;
pub mod wrapper;

pub use io::{KEYS_DOWN_LEN, KEY_MAP_LEN, LAST_QUEUED_CHAR, MOUSE_BUTTONS};
pub use keys::{KeyMods, NavKey, MOD_ALT, MOD_CTRL, MOD_LOGO, MOD_SHIFT, NAV_KEYS};
pub use mouse::{MouseButton, MouseState};
pub use shaders::Shaders;
pub use wrapper::{ImGuiWrapper, UiState, WrapperView};
