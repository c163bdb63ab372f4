//! A pluggable packet-capture abstraction: a uniform, fallible
//! "next packet" interface over heterogeneous raw-packet acquisition
//! mechanisms, together with the factory that selects and constructs a
//! concrete backend and the closed error taxonomy every backend maps its
//! failures into.

mod backend;
mod errors;
mod factory;
mod frame;
mod pktmon_backend;
mod synthetic;

pub use backend::CaptureBackend;
pub use backend::Terminal;
pub use backend::reports;
pub use errors::CaptureError;
pub use errors::lemma_message_shows_kind_and_cause;
pub use factory::Backend;
pub use factory::BackendType;
pub use factory::Platform;
pub use factory::create_capture;
pub use factory::default_backend_spec;
pub use factory::default_capture_backend_type;
pub use factory::supported_on;
pub use factory::unsupported_message;
pub use frame::encode_frame;
pub use frame::fits_frame;
pub use frame::frame_of;
pub use frame::frames_of;
pub use frame::lemma_parse_frame_prepend;
pub use frame::lemma_parse_frames_of;
pub use frame::lemma_prefix_value;
pub use frame::length_prefix;
pub use frame::parse_frames;
pub use frame::prefix_value;
pub use pktmon_backend::PktmonBackend;
pub use pktmon_backend::lemma_port_range_adjacent;
pub use pktmon_backend::PORT_RANGE_FIRST;
pub use pktmon_backend::PORT_RANGE_SECOND;
pub use synthetic::SyntheticBackend;
