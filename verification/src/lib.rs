//! The decisions behind aflak's 2D image views, verified: typed
//! transformations fed with inputs (`pipeline`), draggable handles
//! (`handle`), the color bar's state (`image2d`, `imshow`), the interaction
//! lines placed on an image (`interactions`), the pixel under the mouse and
//! its tooltip (`imshow`, `text`), axis tick labels (`image2d`) and the
//! histogram's scale (`histogram`).
use vstd::prelude::*;

pub mod handle;
pub mod histogram;
pub mod image2d;
pub mod imshow;
pub mod interactions;
pub mod pipeline;
pub mod text;

verus! {

} // verus!
