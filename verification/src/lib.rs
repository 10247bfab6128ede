//! Persistence core of a personal ebook reader: the library of books, the
//! reader's annotations and reading positions, and the store that keeps them.

pub mod annotation;
pub mod book;
pub mod db;
pub mod epub;
pub mod error;
pub mod fresh;
pub mod model;
pub mod pdf;
pub mod records;
pub mod sqlite;
pub mod text;
