//! The user-management core of a full-stack web application: the users
//! page's view-model, which mirrors a remote store of user records and
//! changes the mirror only after the store confirms an operation, and the
//! decisions of the REST handlers that serve that store.

pub mod laws;
pub mod models;
pub mod page;
pub mod reply;
pub mod server;

pub use models::{User, UserRaw, UserView};
pub use page::{PageView, UsersPage};
pub use reply::{Failure, Reply};
pub use server::ApiError;
