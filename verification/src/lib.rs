pub mod activate;
pub mod chat;
pub mod greeting;
pub mod icon;
pub mod inject;
pub mod pipeline;
pub mod platform;
pub mod raster;
pub mod rewrite;
pub mod snapshot;
pub mod text;
