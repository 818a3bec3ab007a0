pub mod chars;
pub mod content;
pub mod discovery;
pub mod library;
pub mod model;
pub mod session;
pub mod settings;
pub mod tree;
pub mod view;
