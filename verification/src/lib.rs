pub mod docurl;
pub mod extract;
pub mod handler;
pub mod model;
pub mod numfmt;
pub mod text;
