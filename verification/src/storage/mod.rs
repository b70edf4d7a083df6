//! Persistence of threads, messages and file metadata: the configuration of the
//! PostgreSQL store and the conversions between stored rows and the library's models.
//! The queries themselves are run by the application around this library.

pub mod postgres;
