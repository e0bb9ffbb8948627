//! Coordination primitives for online unsafe recovery of a Raft store.
//!
//! When a majority of a region's replicas are permanently lost, normal
//! leader election can no longer make progress. This crate holds the
//! coordination layer that a store runtime uses to force such regions back
//! into a working state: a share-counted completion tracker whose stored
//! continuation runs exactly once when the last outstanding share is
//! released, the per-region force-leader state machine, the syncers that
//! drive the wait-apply, fill-out-report and plan-execution phases, and a
//! model of the router through which commands fan out to peers.
//!
//! Beside the recovery core stand the store's external-storage services:
//! the call envelope that clients and storage servers exchange, the
//! registry-backed default service, and the bookkeeping of S3-compatible
//! uploads. Everything that can be decided on plain data is verified;
//! transports, executors and the byte-moving backends are supplied by the
//! embedding program.

pub mod extstore;
pub mod messages;
pub mod state;
pub mod router;
pub mod s3;
pub mod service;
pub mod syncer;
pub mod tracker;
