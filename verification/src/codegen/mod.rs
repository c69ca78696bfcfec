pub mod assembly;
pub mod body;
pub mod descriptor;
pub mod entry;
pub mod laws;
pub mod source;
pub mod wording;
pub mod wrapping;
