//! Logic of a Flatpak installer: reading `.flatpakref` descriptions,
//! deciding what to ask Flathub, what to run and what to show.
pub mod flathub;
pub mod json;
pub mod launch;
pub mod ref_file;
pub mod text;
pub mod transaction;
pub mod ui;
