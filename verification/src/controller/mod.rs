pub mod user;
pub mod wishlist;
pub mod cart;
pub mod product;
