//! Logic behind two small site components: a dark-mode preference that is
//! remembered in a cookie, and a four-step walkthrough of a reactive counter.

pub mod cookie;
pub mod headers;
pub mod preference;
pub mod text;
pub mod walkthrough;
