//! Verified core of a QUIC stack: connection identifiers, the QUIC context
//! and its connection tables, connections and paths, congestion-control
//! arithmetic, packet-header parsing and variable-length integers,
//! stateless packets and version negotiation, the screening of a client's
//! first packet, the public random generator, the spin bit, SipHash, the
//! performance-log row, socket-loop bookkeeping and the qlog formatters.

pub mod types;
pub mod siphash;
pub mod cid;
pub mod tp;
pub mod path;
pub mod cc;
pub mod stream;
pub mod output_queue;
pub mod connection;
pub mod cnx_table;
pub mod quic;
pub mod registration;
pub mod stateless;
pub mod sender;
pub mod receiver;
pub mod initial;
pub mod random;
pub mod header;
pub mod spinbit;
pub mod perflog;
pub mod socks;
pub mod packet_loop;
pub mod qlog;
pub mod qlog_frames;
