pub mod bytes;
pub mod path;
pub mod player;
pub mod presence;
pub mod queue;
pub mod queue_store;
pub mod routing;
pub mod runtime;
pub mod setup;
pub mod soundboard;
pub mod spotify;
pub mod text;
pub mod uri;
pub mod users;
pub mod youtube;
