//! Generation of getter methods and constructors for struct declarations.
//!
//! The crate models a type declaration as plain data: the type's name, its
//! generic parameter lists as token text, its attributes, and its fields with
//! their per-field attributes. From that model it decides, field by field,
//! which accessor shape to emit (borrow, copy, dereference, `AsRef`
//! conversion, or custom logic with an overridden return type), whether a
//! mutable accessor and a `new` constructor are wanted, and renders the
//! resulting `impl` block as source text. Every rendering function carries a
//! contract that pins the emitted text exactly.

pub mod attrs;
pub mod expand;
pub mod getter;
pub mod model;
pub mod syntax;
pub mod text;
