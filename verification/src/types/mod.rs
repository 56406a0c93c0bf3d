//! The parts of a VRT packet, as VITA 49.0 lays them out: the header word, the
//! class identifier, the trailer word, and the packet that holds them.

mod class_id;
mod header;
mod packet;
mod packet_laws;
mod pkt_type;
mod trailer;
mod tsf;
mod tsi;

pub use class_id::ClassId;
pub use header::Header;
pub use packet::{VrtPacket, VrtPacketView};
pub use pkt_type::PktType;
pub use trailer::Trailer;
pub use tsf::Tsf;
pub use tsi::Tsi;
