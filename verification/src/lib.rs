//! Copy-on-write values: data that is borrowed for as long as it is only
//! read, and copied when it is first written to or taken over.

pub mod buffer;
pub mod cow;
pub mod text;
pub mod user;

pub use buffer::LazyBuffer;
pub use cow::CowValue;
pub use cow::Promote;
pub use text::remove_whitespaces;
pub use user::User;
