//! Provisioning of network credentials on a headless device through a local
//! setup portal: the response reader, the credential form, the portal and its
//! handoff slot, and the bring-up sequence of the network interface.

pub mod cycle;
pub mod error;
pub mod http;
pub mod server;
pub mod time;
pub mod wifi;
