//! Back end of a small assembler for a 16-register, word-addressed virtual
//! machine: a typed instruction model, a resolver that rewrites symbolic jump
//! targets into absolute addresses, and a bit-exact 3-byte binary encoder with
//! a hex listing renderer.

pub mod instr_repr;
pub mod label_resolver;
