//! Data as Firefish servers send it.

pub mod entities;
