//! An HTML tokenizer: consumes a decoded Unicode scalar-value sequence and
//! produces the linear token stream (tags, text characters, comments,
//! doctype declarations) of the HTML tokenization state machine, ending in
//! exactly one end-of-file token.
//!
//! The machine itself is stated twice: once as executable code, and once as
//! a mathematical model (`model`, with one transition function per state);
//! every step of the executable tokenizer is proved to effect exactly the
//! model's transition, and `run`'s result is pinned to the iterated model.

pub mod cdata;
pub mod charref;
pub mod comment;
pub mod content;
pub mod model;
pub mod node;
pub mod doctype;
pub mod entities;
pub mod laws;
pub mod machine;
pub mod script;
pub mod state;
pub mod tag;
pub mod token;
pub mod tokenizer;

mod trusted;
mod util;
