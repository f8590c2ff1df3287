//! A minimal concurrent task-execution core: a fixed-size worker pool that
//! runs submitted jobs on background threads, together with the pure logic of
//! an HTTP accept loop that feeds the pool and supports cooperative shutdown.
//!
//! The dispatch and shutdown protocol of the pool, the request routing and
//! response formatting, and the accept-loop decision logic are verified here;
//! the thin layer of real threads, sockets and signals lives outside the
//! library and consults these functions for every decision.

pub mod http;
pub mod pool;
pub mod server;

pub use pool::ThreadPool;
pub use server::ServerConfig;
pub use server::ServerError;
