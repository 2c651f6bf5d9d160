pub mod marketing;
