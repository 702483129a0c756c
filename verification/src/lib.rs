#![allow(non_camel_case_types)]

pub mod driver;
pub mod fields;
pub mod frame;
pub mod initialization;
pub mod operator;
pub mod registers;
pub mod stream_reader;
