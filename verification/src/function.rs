pub mod add;
pub mod div;
pub mod mul;
