//! Text as sequences of characters: searching, splitting, trimming and
//! decimal numbers.

pub mod case;
pub mod chars;
pub mod decimal;
pub mod search;
pub mod trim;
