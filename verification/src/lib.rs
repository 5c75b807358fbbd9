//! Canonicalizer for share links: resolves client-side redirects and strips
//! tracking parameters from platform URLs, leaving the minimal canonical form.

pub mod clean;
pub mod facebook;
pub mod generic;
pub mod instagram;
pub mod laws;
pub mod reddit;
pub mod resolve;
pub mod text;
pub mod url_ext;
pub mod url_value;
