//! Image-processing building blocks: ICO container coding, output-format
//! rules, geometry of crops and embeds, and option validation.
pub mod bytes;
pub mod icon;
pub mod icon_check;
pub mod text;
pub mod image_type;
pub mod geometry;
pub mod output;
pub mod format;
pub mod metadata;
pub mod suffix;
pub mod input;
pub mod writer;
pub mod operations;
pub mod colour;
pub mod resize;
pub mod pipeline;
pub mod info;
pub mod composite;
pub mod loading;
pub mod plan;

use vstd::prelude::*;

verus! {

} // verus!
