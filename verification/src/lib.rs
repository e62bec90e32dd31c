//! Routing and blog ingestion for a single-page personal site.
//!
//! The crate holds the parts of the site that do not draw:
//!
//! - [`route`]: the pages and the URL paths that name them;
//! - [`frontmatter`], [`dates`], [`blog`]: how a post is read from a text with
//!   a frontmatter block, and what its date lines mean;
//! - [`ingest`], [`listing`]: which files hold posts, the order of the list of
//!   posts, and how a slug finds a post in it;
//! - [`state`]: the state of the site between two frames, and the steps that
//!   change it;
//! - [`widgets`]: what the buttons are told and what they decide from it;
//! - [`text`]: the handling of characters that the others share.
//!
//! Every function carries a contract over a mathematical view of its data, and
//! the contracts are proved. What is taken on trust is marked where it stands:
//! the calls into `chrono`, which reads and writes dates, and two functions of
//! the standard library.

pub mod blog;
pub mod dates;
pub mod frontmatter;
pub mod ingest;
pub mod listing;
pub mod route;
pub mod state;
pub mod text;
pub mod widgets;
