//! Launch orchestration for an online game client: device fingerprinting,
//! the web-login handshake, process launch with handle bookkeeping, and the
//! add-on host's synchronisation and injection steps.

pub mod text;
pub mod digest;
pub mod fingerprint;
pub mod login;
pub mod download;
pub mod process;
pub mod addon;
pub mod launch;
pub mod injector;
pub mod orchestrator;
pub mod sync;
pub mod news;
pub mod console;
