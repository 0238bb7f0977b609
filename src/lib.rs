//! A port scanner's verified core: wire-format builders and parsers for the
//! probes it sends and the replies it reads, the reply-to-status decision
//! tables, the rendezvous table between probes and the listener, the
//! bounded-concurrency schedule, and the local addressing decisions.
pub mod scanner_enums;
pub mod wire;
pub mod frames;
pub mod random;
pub mod tcp_builder;
pub mod udp_builder;
pub mod icmp_builder;
pub mod arp_builder;
pub mod probe_table;
pub mod probe;
pub mod schedule;
pub mod interface;
pub mod listener;
pub mod gateway;
pub mod summary;
pub mod scanner;

pub use scanner_enums::{Mode, PortStatus};
pub use interface::DeviceInterface;
pub use listener::PacketListener;
pub use scanner::PortScanner;
