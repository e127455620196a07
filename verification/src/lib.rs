//! Redirector for the legacy URLs of a document mirror that moved to a new host.
//!
//! Every historical URL is rewritten into its address on the new host, except
//! for source archives, which are located in a sharded local store. The
//! library computes redirect targets, storage paths and response decisions;
//! serving HTTP and reading files is left to the caller.

pub mod archive;
pub mod catchers;
pub mod dispatch;
pub mod ident;
pub mod routes;

pub use archive::{
    build_source_zip_path, fetch_zip, get_field_source_zip, get_source_zip, papers_root_dir,
    robots_txt, ContentType, DEFAULT_PAPERS_ROOT_DIR, ROBOTS_BODY,
};
pub use catchers::{default_catcher, general_not_found};
pub use dispatch::{dispatch, Action};
pub use ident::{strip_pdf_ext, strip_zip_ext};
pub use routes::{
    abs, abs_field, about, feeling_lucky, get_field_html, get_field_log, get_html, get_log, pdf,
    pdf_field, vanity_style, vanity_style_field, Redirect, NEW_HOME,
};
