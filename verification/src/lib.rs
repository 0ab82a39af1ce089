//! Potato Stamps: the scene document, primitive-mode selection and the
//! immutable execution index catalogue behind the TRUEOS primitive demo.
pub mod scene;
