pub mod dialog;
pub mod header;
pub mod pages;
pub mod widgets;
