pub mod object_id;
pub mod serializers;
pub mod response;
pub mod pagination;
pub mod text;
pub mod password;
pub mod utilities;
pub mod middleware;
pub mod controller;
