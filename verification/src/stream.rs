//! The update-ingestion pipeline.
//!
//! Producers queue updates of the catalog in a store; one processor per
//! channel drains the queue in batches and has each update applied to the
//! persistence layer, trying again a bounded number of times where that
//! fails. A run flag in the store pauses and resumes the draining.
//!
//! The processor in `processor` decides and does nothing else: its host
//! tells it what happened (a `Signal`) and carries out what it asks for (an
//! `Action`). `store` holds one channel of the store in memory, `world` says
//! what a run of the processor makes of store and persistence layer, and
//! `laws` proves what holds of every such run.
pub mod event;
pub mod laws;
pub mod processor;
pub mod store;
pub mod world;
