//! A fixed demonstration script and the small pure operations it is built
//! from: integer helpers, a dog that barks, decimal rendering of integers and
//! the transcript of lines that one run of the script emits.

pub mod arith;
pub mod author;
pub mod decimal;
pub mod dog;
pub mod script;
