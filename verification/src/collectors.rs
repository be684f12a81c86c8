//! What the collectors decide once the operating system and the Docker
//! daemon have answered: which sockets are listening ports, how containers and
//! volumes are named and described, and how a snapshot is put together.
pub mod docker;
pub mod ports;
pub mod volumes;
pub mod snapshot;
pub mod processes;
pub mod system;
