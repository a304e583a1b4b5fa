//! A news-headline viewer's logic: the client of the news API and the state
//! of the application that shows what it fetched.

pub mod headlines;
pub mod newsapi;
