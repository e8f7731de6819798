//! Books, magazines and a two-case publication union, each rendered as one line of text.
pub mod decimal;
pub mod publication;

pub use publication::{
    Author, AuthorView, Authored, Book, BookView, Issued, Magazine, MagazineView, Printable,
    Publication, Topic,
};
