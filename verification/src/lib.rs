//! A generic RGBA pixel value: four channels of one unsigned, bounded
//! integer type, with constructors, setters, extraction as a tuple, vector
//! or fixed-size array, an uppercase hexadecimal rendering, and a cursor
//! that walks the four channels in order.

pub mod channel;
pub mod hex;
pub mod pixel;
