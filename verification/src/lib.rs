//! Incremental photo-media downloader core: the checkpoint codec, media
//! bookkeeping, deterministic paths, and the pagination state machine, all
//! verified. The surrounding process (network calls, filesystem, CLI)
//! performs the outside work and consumes these decisions.
pub mod checkpoint;
pub mod config;
pub mod media;
pub mod orchestrator;
pub mod paths;
