pub mod comment;
pub mod comments;
pub mod context;
pub mod delete;
pub mod envelope;
pub mod envfile;
pub mod errors;
pub mod logconfig;
pub mod logging;
pub mod middleware;
pub mod mutation;
pub mod clock;
pub mod pagination;
pub mod password;
pub mod post;
pub mod post_tag;
pub mod posts;
pub mod query;
pub mod request;
pub mod request_id;
pub mod response;
pub mod save;
pub mod seeder;
pub mod store;
pub mod strutil;
pub mod text;
pub mod user;
pub mod users;
