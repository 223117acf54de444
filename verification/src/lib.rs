pub mod error;
pub mod json;
pub mod model;
pub mod text;
pub mod users;
pub mod highlights;
pub mod post;
pub mod profile;
pub mod requests;
pub mod paging;
