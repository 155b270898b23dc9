//! Verified core of a small wrapper around a native document-rendering
//! engine and a native 2D-graphics engine: the error convention of the
//! foreign calls, the file URI the engine is opened with, the guards on page
//! counts and page indices, and the decisions of the render run.
pub mod document;
pub mod error;
pub mod ffi;
pub mod render;
pub mod util;

pub use document::{check_password, lookup_index, open_request, page_count, OpenRequest};
pub use error::PdfError;
pub use ffi::{PopplerDocument, PopplerPage};
pub use render::{on_event, page_ops, start, Action, Event, RunState, SurfaceOp};
pub use util::{call_with_gerror, path_to_glib_url, CanonicalPath};
