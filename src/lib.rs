//! Execution core of a small bytecode language: a growable buffer, the
//! chunk that holds instruction bytes, constants and line numbers, a
//! disassembler, and a stack machine that runs a chunk.
pub mod chunk;
pub mod debug;
pub mod operation;
pub mod scanner;
pub mod simple_vec;
pub mod vm;
