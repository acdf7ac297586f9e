pub mod menubar;
