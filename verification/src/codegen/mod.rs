pub mod text;
pub mod tokens;
pub mod identifier;
pub mod mixins;
pub mod bundles;
pub mod fabriko;
pub mod factories;
