//! Lexical token model for a small interpreted language: the closed
//! vocabulary of token kinds, and the rules that classify a raw lexeme
//! (a single character, or an accumulated run of characters) into one
//! of those kinds.

pub mod token;
pub mod laws;
