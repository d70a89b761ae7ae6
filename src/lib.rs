// Setup bundles of the client tool, and what is derived from them: the settings
// merged into its configuration document, and its environment variables.
pub mod configuration;
pub mod document;
pub mod edits;
pub mod environment;
pub mod laws;
pub mod setup;
pub mod toml;
