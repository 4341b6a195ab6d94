//! `zdict`: look words up in online dictionaries from the terminal.
//!
//! - [`cli`]: the options of `zd` and the grammar of its command line;
//! - [`dict`]: the dictionaries (Yahoo, Urban Dictionary, Jisho), their query
//!   addresses, their entries, how an entry is read and how it is shown;
//! - [`lookup`]: the lookup of a word as a state machine over the cache and
//!   the dictionary;
//! - [`text`]: the character-level helpers the others are built on.
pub mod text;
pub mod cli;
pub mod dict;
pub mod lookup;
