pub mod css;
