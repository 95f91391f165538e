//! Availability monitoring for network devices: ICMP echo packets and their
//! correlation, the per-device probe cycle, the device registry, the per-recipient
//! notifier with its email token, the bounded log and the session rules of the
//! web interface. Everything here works on plain values; sockets, timers and
//! channels belong to the program around it.

pub mod addr;
pub mod devices;
pub mod log;
pub mod monitor;
pub mod notifier;
pub mod ping;
pub mod state;
pub mod stream;
pub mod text;
pub mod time;
pub mod webserver;
