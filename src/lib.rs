//! A job queue for slow text-completion requests: jobs are queued, pulled by
//! workers, retried on transient failure, and their outputs are kept in a
//! result store keyed by job id.
pub mod job;
pub mod queue;
pub mod store;
pub mod decimal;
pub mod dispatcher;
pub mod http_client;
pub mod gateway;
