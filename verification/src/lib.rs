//! Core of a face-authentication desktop unlocker: the face-descriptor
//! codec, image and detection rules, the resource slots with their lock
//! discipline, and the credential-relay protocol.
//!
//! Native inference, camera capture, file access and the pipe to the unlock
//! helper are performed by the embedding program; this crate holds the
//! decisions around them and proves them against their contracts.

pub mod camera;
pub mod commands;
pub mod descriptor;
pub mod detection;
pub mod envelope;
pub mod error;
pub mod imaging;
pub mod relay;
pub mod resources;
pub mod storage;
pub mod transport;
