//! Data types for working with conventional commit messages: the commit
//! itself, its footers, and the separator between a footer's token and value.

pub mod commit;
pub mod footer;
pub mod separator;
pub mod text;

pub use commit::Commit;
pub use footer::Footer;
pub use separator::FooterSeparator;
pub use separator::UnrecognizedSeparator;
pub use separator::SEPARATOR_COLON;
pub use separator::SEPARATOR_HASHTAG;
