use vstd::prelude::*;

pub mod json_handler;
pub mod multipart_handler;

verus! {

/// The directory that uploaded images and their thumbnails are stored in.
pub const BASE_DIR: &'static str = "./uploads";

} // verus!
