//! Deriving ADTS headers straight from MP4 container types.
//!
//! The `mp4` crate parses the container and hands out `Mp4Track` and
//! `Mp4Sample` values; both are opaque here. Thin trusted wrappers read the
//! three metadata codes and the payload length out of them as plain values,
//! and the verified builder does everything else.

use vstd::prelude::*;

use crate::adts::{
    adts_header_with_payload_len, channel_config_from_code, object_type_from_code,
    sample_freq_index_from_code, spec_adts_header, AudioObjectType, AudioTrackMetadata,
    ChannelConfig, SampleFreqIndex,
};

verus! {

#[verifier::external_type_specification]
#[verifier::external_body]
pub struct ExMp4Track(mp4::Mp4Track);

#[verifier::external_type_specification]
#[verifier::external_body]
pub struct ExMp4Sample(mp4::Mp4Sample);

/// Relies on mp4::Mp4Track::audio_profile: the MPEG-4 audio object type code
/// stored in the track's decoder-specific configuration, as the numeric code
/// of the returned enumeration; `None` where the track has no such box or
/// the stored code maps to no enumeration value.
#[verifier::external_body]
fn track_audio_profile_code(track: &mp4::Mp4Track) -> (r: Option<u8>) {
    match track.audio_profile() {
        Ok(profile) => Some(profile as u8),
        Err(_) => None,
    }
}

/// Relies on mp4::Mp4Track::sample_freq_index: the sampling-frequency index
/// stored in the track's decoder-specific configuration, as the numeric code
/// of the returned enumeration; `None` where the track has no such box or
/// the stored code maps to no enumeration value.
#[verifier::external_body]
fn track_sample_freq_index_code(track: &mp4::Mp4Track) -> (r: Option<u8>) {
    match track.sample_freq_index() {
        Ok(freq_index) => Some(freq_index as u8),
        Err(_) => None,
    }
}

/// Relies on mp4::Mp4Track::channel_config: the channel configuration stored
/// in the track's decoder-specific configuration, as the numeric code of the
/// returned enumeration; `None` where the track has no such box or the
/// stored code maps to no enumeration value.
#[verifier::external_body]
fn track_channel_config_code(track: &mp4::Mp4Track) -> (r: Option<u8>) {
    match track.channel_config() {
        Ok(config) => Some(config as u8),
        Err(_) => None,
    }
}

/// Relies on the mp4::Mp4Sample::bytes field and bytes::Bytes::len: the byte
/// count of the sample's encoded payload.
#[verifier::external_body]
fn sample_payload_len(sample: &mp4::Mp4Sample) -> (r: usize) {
    sample.bytes.len()
}

/// Builds the 7-byte CRC-absent ADTS header that turns `sample`'s raw AAC
/// payload into a self-describing frame. Each metadata code the track hands
/// out is resolved through the fixed tables; whatever the container holds,
/// any produced header is the exact packed layout of some supported
/// metadata triple and payload length, and starts with the sync pattern.
/// `None` when the track is not supported AAC audio.
pub fn construct_adts_header(track: &mp4::Mp4Track, sample: &mp4::Mp4Sample) -> (r: Option<
    Vec<u8>,
>)
    ensures
        r matches Some(h) ==> h@.len() == 7 && h@[0] == 0xff && h@[1] == 0xf1,
        r matches Some(h) ==> exists|t: AudioObjectType, f: SampleFreqIndex, c: ChannelConfig, n: nat|
            h@ == spec_adts_header(t, f, c, n),
{
    let object_type = match track_audio_profile_code(track) {
        Some(code) => object_type_from_code(code),
        None => None,
    };
    let sample_freq_index = match track_sample_freq_index_code(track) {
        Some(code) => sample_freq_index_from_code(code),
        None => None,
    };
    let channel_config = match track_channel_config_code(track) {
        Some(code) => channel_config_from_code(code),
        None => None,
    };
    let metadata = AudioTrackMetadata { object_type, sample_freq_index, channel_config };
    adts_header_with_payload_len(&metadata, sample_payload_len(sample))
}

} // verus!
