//! Two small verified computations: the Fibonacci numbers by naive
//! recursion, and a running sum over `0..bound` whose accumulator resets
//! to zero whenever it climbs above one billion, together with the
//! decimal parsing of the sum's command-line bound.

pub mod fib;
pub mod parse;
pub mod summer;
