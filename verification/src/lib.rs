//! Image pool: the verified core of an image upload service.
//!
//! The service accepts images sent inline (base64 in a JSON body, or files in a
//! multipart form) or by URI, stores each image together with a 100x100
//! thumbnail, and answers with one `SaveInfo` per input.
pub mod infrastructure;
pub mod mat;
pub mod web;
