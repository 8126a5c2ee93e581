//! Encoder for 7-byte ADTS (Audio Data Transport Stream) headers.
//!
//! The crate derives an ADTS header from the metadata of an encoded AAC
//! sample, so that raw AAC payloads extracted from an MP4 container can be
//! wrapped into a self-describing elementary stream.

pub mod adts;
pub mod bits;
pub mod container;

pub use adts::{
    adts_header_with_payload_len, build_adts_header, channel_config_from_code,
    object_type_from_code, sample_freq_index_from_code, AudioObjectType, AudioSample,
    AudioTrackMetadata, ChannelConfig, SampleFreqIndex,
};
pub use bits::{get_bits, get_bits_u8};
pub use container::construct_adts_header;
