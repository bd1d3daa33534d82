//! A small static file server's logic: turning request paths into filesystem
//! paths and back into URL paths, rendering directory listings as HTML, and
//! deciding how each request is answered.

pub mod url;
pub mod html;
pub mod route;
