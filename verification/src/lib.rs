//! Request construction for a Pleroma client: the paths, query strings, form
//! fields and multipart parts that each API call sends, the conversion of
//! Firefish instance data into the shared entity types, and the text
//! encodings these rely on.

pub mod entities;
pub mod error;
pub mod external;
pub mod firefish;
pub mod form;
pub mod laws;
pub mod options;
pub mod pleroma;
pub mod query;
pub mod request;
pub mod text;
