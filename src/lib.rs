//! A styled, clickable button component and a small reactive view that
//! counts likes, modelled as plain data so that rendering and event
//! dispatch can be stated and proved.
pub mod button;
pub mod context;
pub mod person;
pub mod style;
pub mod text;
pub mod tree;
