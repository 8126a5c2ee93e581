//! The ADTS header builder: metadata enumerations, their ADTS codes, the
//! bit-level layout of the 7-byte header, and the packing function.

use vstd::prelude::*;

use crate::bits::{get_bits, get_bits_u8};

verus! {

/// The AAC coding profiles that can be written into an ADTS header.
#[derive(Clone, Copy, Debug, PartialEq, Eq, Structural)]
pub enum AudioObjectType {
    AacMain,
    AacLowComplexity,
    AacScalableSampleRate,
    AacLongTermPrediction,
}

/// The sampling frequencies with an ADTS sample-rate index (indices 13-15 are
/// reserved or forbidden in ADTS and have no variant here).
#[derive(Clone, Copy, Debug, PartialEq, Eq, Structural)]
pub enum SampleFreqIndex {
    Freq96000,
    Freq88200,
    Freq64000,
    Freq48000,
    Freq44100,
    Freq32000,
    Freq24000,
    Freq22050,
    Freq16000,
    Freq12000,
    Freq11025,
    Freq8000,
    Freq7350,
}

/// The loudspeaker channel layouts with an ADTS channel-configuration code
/// (code 0, inband PCE, is never produced; codes 8-15 are reserved).
#[derive(Clone, Copy, Debug, PartialEq, Eq, Structural)]
pub enum ChannelConfig {
    Mono,
    Stereo,
    Three,
    Four,
    Five,
    FiveOne,
    SevenOne,
}

/// The MPEG-4 audio object type code: 1 for Main, 2 for Low Complexity,
/// 3 for Scalable Sample Rate, 4 for Long Term Prediction. The ADTS header
/// stores this code minus one in a 2-bit field.
pub open spec fn object_type_code(t: AudioObjectType) -> u8 {
    match t {
        AudioObjectType::AacMain => 1,
        AudioObjectType::AacLowComplexity => 2,
        AudioObjectType::AacScalableSampleRate => 3,
        AudioObjectType::AacLongTermPrediction => 4,
    }
}

/// The ADTS sample-rate index: position of the frequency in the fixed
/// 13-entry table 96000, 88200, ..., 7350, stored directly as a 4-bit field.
pub open spec fn sample_freq_index_code(f: SampleFreqIndex) -> u8 {
    match f {
        SampleFreqIndex::Freq96000 => 0,
        SampleFreqIndex::Freq88200 => 1,
        SampleFreqIndex::Freq64000 => 2,
        SampleFreqIndex::Freq48000 => 3,
        SampleFreqIndex::Freq44100 => 4,
        SampleFreqIndex::Freq32000 => 5,
        SampleFreqIndex::Freq24000 => 6,
        SampleFreqIndex::Freq22050 => 7,
        SampleFreqIndex::Freq16000 => 8,
        SampleFreqIndex::Freq12000 => 9,
        SampleFreqIndex::Freq11025 => 10,
        SampleFreqIndex::Freq8000 => 11,
        SampleFreqIndex::Freq7350 => 12,
    }
}

/// The ADTS channel-configuration code: 1 for mono up to 7 for 7.1. This
/// 3-bit code straddles a byte boundary in the header: its top bit ends
/// byte 2 and its low 2 bits start byte 3.
pub open spec fn channel_config_code(c: ChannelConfig) -> u8 {
    match c {
        ChannelConfig::Mono => 1,
        ChannelConfig::Stereo => 2,
        ChannelConfig::Three => 3,
        ChannelConfig::Four => 4,
        ChannelConfig::Five => 5,
        ChannelConfig::FiveOne => 6,
        ChannelConfig::SevenOne => 7,
    }
}

/// Track-level metadata of an audio track, each field already resolved to a
/// supported enumeration value, or `None` where the track carries an
/// unsupported or unreadable value.
pub struct AudioTrackMetadata {
    pub object_type: Option<AudioObjectType>,
    pub sample_freq_index: Option<SampleFreqIndex>,
    pub channel_config: Option<ChannelConfig>,
}

/// One encoded audio sample: the raw payload bytes. Only the byte count
/// feeds the header; the contents are carried unread.
pub struct AudioSample {
    pub bytes: Vec<u8>,
}

/// The 16-bit frame-length operand: header size 7 plus the payload byte
/// count, reduced mod 2^16 exactly as the 16-bit packing arithmetic does.
/// Only its low 13 bits reach the header, so a payload longer than 8184
/// bytes is silently truncated (the upper bound is not enforced).
pub open spec fn spec_frame_length(payload_len: nat) -> u16 {
    (((payload_len + 7) % 0x10000) as u16)
}

/// Header byte 2: the object-type code minus one (2 bits), the sample-rate
/// index (4 bits), the private bit fixed to 1, and the top bit of the 3-bit
/// channel-configuration code.
pub open spec fn spec_byte2(ot_code: u8, freq_index: u8, chan_code: u8) -> u8
    recommends
        1 <= ot_code <= 4,
        freq_index <= 12,
        1 <= chan_code <= 7,
{
    ((((ot_code - 1) as u8) << 6) | (freq_index << 2) | 2 | ((chan_code >> 2) & 1))
}

/// Header byte 3: the low 2 bits of the channel-configuration code, four
/// stuffing bits fixed to 1, and the top 2 bits of the 13-bit frame-length
/// field. The extractor hands over a 3-bit group here, whose extra top bit
/// lands on a stuffing bit that is already 1.
pub open spec fn spec_byte3(chan_code: u8, frame_length: u16) -> u8
    recommends
        1 <= chan_code <= 7,
{
    (((chan_code & 3) << 6) | 0x3c | (((frame_length >> 11) & 7) as u8))
}

/// Header byte 4: the middle 8 bits of the frame length.
pub open spec fn spec_byte4(frame_length: u16) -> u8 {
    (((frame_length >> 3) & 0xff) as u8)
}

/// Header byte 5: the low 3 bits of the frame length, then the first 5 bits
/// of the buffer-fullness stuffing, fixed to all ones.
pub open spec fn spec_byte5(frame_length: u16) -> u8 {
    ((((frame_length & 7) as u8) << 5) | 0x1f)
}

/// The full 7-byte CRC-absent ADTS header for the given supported metadata
/// and payload length: sync word `0xff`, then sync continuation, MPEG-4
/// version, layer 0 and protection-absent 1 (`0xf1`), then the packed
/// fields, and last the remaining stuffing bits and the frame count 0
/// (`0xfc`).
pub open spec fn spec_adts_header(
    t: AudioObjectType,
    f: SampleFreqIndex,
    c: ChannelConfig,
    payload_len: nat,
) -> Seq<u8> {
    seq![
        0xffu8,
        0xf1u8,
        spec_byte2(object_type_code(t), sample_freq_index_code(f), channel_config_code(c)),
        spec_byte3(channel_config_code(c), spec_frame_length(payload_len)),
        spec_byte4(spec_frame_length(payload_len)),
        spec_byte5(spec_frame_length(payload_len)),
        0xfcu8,
    ]
}

/// The object type written into a header, read back: the 2-bit field at the
/// top of byte 2, plus one.
pub open spec fn decoded_object_type_code(h: Seq<u8>) -> u8
    recommends
        h.len() == 7,
{
    (((h[2] >> 6) + 1) as u8)
}

/// The sample-rate index written into a header, read back: the 4-bit field
/// in the middle of byte 2.
pub open spec fn decoded_sample_freq_index_code(h: Seq<u8>) -> u8
    recommends
        h.len() == 7,
{
    ((h[2] >> 2) & 0xf)
}

/// The channel-configuration code written into a header, read back: the low
/// bit of byte 2 above the top 2 bits of byte 3.
pub open spec fn decoded_channel_config_code(h: Seq<u8>) -> u8
    recommends
        h.len() == 7,
{
    (((h[2] & 1) << 2) | (h[3] >> 6))
}

/// The 13-bit frame length written into a header, read back: the low 2 bits
/// of byte 3, then byte 4, then the top 3 bits of byte 5.
pub open spec fn decoded_frame_length(h: Seq<u8>) -> u16
    recommends
        h.len() == 7,
{
    ((((h[3] & 3) as u16) << 11) | ((h[4] as u16) << 3) | ((h[5] >> 5) as u16))
}

/// Resolves an MPEG-4 audio object type code to the supported profile:
/// exactly the codes of the fixed table Main 1, Low Complexity 2, Scalable
/// Sample Rate 3, Long Term Prediction 4 resolve; every other code fails.
pub fn object_type_from_code(code: u8) -> (r: Option<AudioObjectType>)
    ensures
        r is Some <==> 1 <= code <= 4,
        r matches Some(t) ==> object_type_code(t) == code,
{
    match code {
        1 => Some(AudioObjectType::AacMain),
        2 => Some(AudioObjectType::AacLowComplexity),
        3 => Some(AudioObjectType::AacScalableSampleRate),
        4 => Some(AudioObjectType::AacLongTermPrediction),
        _ => None,
    }
}

/// Resolves an ADTS sample-rate index to the supported frequency: exactly
/// the indices 0 through 12 of the fixed table 96000 down to 7350 resolve;
/// 13 and 14 are reserved and 15 (explicit frequency) is forbidden in ADTS.
pub fn sample_freq_index_from_code(code: u8) -> (r: Option<SampleFreqIndex>)
    ensures
        r is Some <==> code <= 12,
        r matches Some(f) ==> sample_freq_index_code(f) == code,
{
    match code {
        0 => Some(SampleFreqIndex::Freq96000),
        1 => Some(SampleFreqIndex::Freq88200),
        2 => Some(SampleFreqIndex::Freq64000),
        3 => Some(SampleFreqIndex::Freq48000),
        4 => Some(SampleFreqIndex::Freq44100),
        5 => Some(SampleFreqIndex::Freq32000),
        6 => Some(SampleFreqIndex::Freq24000),
        7 => Some(SampleFreqIndex::Freq22050),
        8 => Some(SampleFreqIndex::Freq16000),
        9 => Some(SampleFreqIndex::Freq12000),
        10 => Some(SampleFreqIndex::Freq11025),
        11 => Some(SampleFreqIndex::Freq8000),
        12 => Some(SampleFreqIndex::Freq7350),
        _ => None,
    }
}

/// Resolves an ADTS channel-configuration code to the supported layout:
/// exactly the codes 1 through 7 resolve; 0 (inband PCE) and the reserved
/// codes 8 through 15 fail.
pub fn channel_config_from_code(code: u8) -> (r: Option<ChannelConfig>)
    ensures
        r is Some <==> 1 <= code <= 7,
        r matches Some(c) ==> channel_config_code(c) == code,
{
    match code {
        1 => Some(ChannelConfig::Mono),
        2 => Some(ChannelConfig::Stereo),
        3 => Some(ChannelConfig::Three),
        4 => Some(ChannelConfig::Four),
        5 => Some(ChannelConfig::Five),
        6 => Some(ChannelConfig::FiveOne),
        7 => Some(ChannelConfig::SevenOne),
        _ => None,
    }
}

/// Builds the 7-byte CRC-absent ADTS header for a payload of `payload_len`
/// bytes: `Some` exactly when all three metadata fields are resolved, and
/// then byte for byte the packed layout of `spec_adts_header`; `None` as
/// soon as any field is unresolved, with no partial header.
pub fn adts_header_with_payload_len(track: &AudioTrackMetadata, payload_len: usize) -> (r: Option<
    Vec<u8>,
>)
    ensures
        r is Some <==> (track.object_type is Some && track.sample_freq_index is Some
            && track.channel_config is Some),
        r matches Some(h) ==> h@ == spec_adts_header(
            track.object_type->Some_0,
            track.sample_freq_index->Some_0,
            track.channel_config->Some_0,
            payload_len as nat,
        ),
        r matches Some(h) ==> h@.len() == 7 && h@[0] == 0xff && h@[1] == 0xf1,
{
    let t = match track.object_type {
        Some(t) => t,
        None => { return None; },
    };
    let f = match track.sample_freq_index {
        Some(f) => f,
        None => { return None; },
    };
    let c = match track.channel_config {
        Some(c) => c,
        None => { return None; },
    };

    let byte0: u8 = 0b1111_1111;
    let byte1: u8 = 0b1111_0001;

    let object_type: u8 = match t {
        AudioObjectType::AacMain => 1,
        AudioObjectType::AacLowComplexity => 2,
        AudioObjectType::AacScalableSampleRate => 3,
        AudioObjectType::AacLongTermPrediction => 4,
    };
    let adts_object_type = object_type - 1;
    let sample_freq_index: u8 = match f {
        SampleFreqIndex::Freq96000 => 0,
        SampleFreqIndex::Freq88200 => 1,
        SampleFreqIndex::Freq64000 => 2,
        SampleFreqIndex::Freq48000 => 3,
        SampleFreqIndex::Freq44100 => 4,
        SampleFreqIndex::Freq32000 => 5,
        SampleFreqIndex::Freq24000 => 6,
        SampleFreqIndex::Freq22050 => 7,
        SampleFreqIndex::Freq16000 => 8,
        SampleFreqIndex::Freq12000 => 9,
        SampleFreqIndex::Freq11025 => 10,
        SampleFreqIndex::Freq8000 => 11,
        SampleFreqIndex::Freq7350 => 12,
    };
    let channel_config: u8 = match c {
        ChannelConfig::Mono => 1,
        ChannelConfig::Stereo => 2,
        ChannelConfig::Three => 3,
        ChannelConfig::Four => 4,
        ChannelConfig::Five => 5,
        ChannelConfig::FiveOne => 6,
        ChannelConfig::SevenOne => 7,
    };

    let chan_high = get_bits_u8(channel_config, 6, 6);
    let mut byte2: u8 = 0;
    byte2 = (byte2 << 2) | adts_object_type;
    byte2 = (byte2 << 4) | sample_freq_index;
    byte2 = (byte2 << 1) | 0b1;
    byte2 = (byte2 << 1) | chan_high;

    let frame_length_usize: usize = (payload_len % 0x10000 + 7) % 0x10000;
    let frame_length: u16 = frame_length_usize as u16;
    proof {
        vstd::arithmetic::div_mod::lemma_add_mod_noop_right(
            7,
            payload_len as int,
            0x10000,
        );
        assert(frame_length == spec_frame_length(payload_len as nat));
    }

    let chan_low = get_bits_u8(channel_config, 7, 8);
    let frame_high = get_bits(frame_length, 3, 5);
    let mut byte3: u8 = 0;
    byte3 = (byte3 << 2) | chan_low;
    byte3 = (byte3 << 4) | 0b1111;
    byte3 = (byte3 << 2) | (frame_high as u8);

    let byte4: u8 = get_bits(frame_length, 6, 13) as u8;

    let frame_low = get_bits(frame_length, 14, 16);
    let mut byte5: u8 = 0;
    byte5 = (byte5 << 3) | (frame_low as u8);
    byte5 = (byte5 << 5) | 0b11111;

    let mut byte6: u8 = 0;
    byte6 = (byte6 << 6) | 0b111111;
    byte6 = (byte6 << 2) | 0b00;

    proof {
        assert(byte2 == spec_byte2(object_type, sample_freq_index, channel_config))
            by (bit_vector)
            requires
                byte2 == ((((((0u8 << 2) | ((object_type - 1) as u8)) << 4) | sample_freq_index)
                    << 1 | 1) << 1) | chan_high,
                chan_high == (channel_config >> 2) & (0xffu8 >> 7),
                1 <= object_type <= 4,
                sample_freq_index <= 12,
                1 <= channel_config <= 7,
        ;
        assert(byte3 == spec_byte3(channel_config, frame_length)) by (bit_vector)
            requires
                byte3 == ((((0u8 << 2) | chan_low) << 4 | 0xf) << 2) | (frame_high as u8),
                chan_low == (channel_config >> 0) & (0xffu8 >> 6),
                frame_high == (frame_length >> 11) & (0xffffu16 >> 13),
                1 <= channel_config <= 7,
        ;
        assert(byte4 == spec_byte4(frame_length)) by (bit_vector)
            requires
                byte4 == ((frame_length >> 3) & (0xffffu16 >> 8)) as u8,
        ;
        assert(byte5 == spec_byte5(frame_length)) by (bit_vector)
            requires
                byte5 == (((0u8 << 3) | (frame_low as u8)) << 5) | 0x1f,
                frame_low == (frame_length >> 0) & (0xffffu16 >> 13),
        ;
        assert(byte6 == 0xfc) by (bit_vector)
            requires
                byte6 == (((0u8 << 6) | 0x3f) << 2) | 0,
        ;
    }

    let mut header: Vec<u8> = Vec::new();
    header.push(byte0);
    header.push(byte1);
    header.push(byte2);
    header.push(byte3);
    header.push(byte4);
    header.push(byte5);
    header.push(byte6);
    proof {
        assert(header@ =~= spec_adts_header(t, f, c, payload_len as nat));
    }
    Some(header)
}

/// Builds the 7-byte CRC-absent ADTS header that prefixes `sample`'s
/// payload: `Some` with the packed layout of `spec_adts_header` exactly when
/// all three metadata fields of the track are resolved, `None` otherwise.
pub fn build_adts_header(track: &AudioTrackMetadata, sample: &AudioSample) -> (r: Option<Vec<u8>>)
    ensures
        r is Some <==> (track.object_type is Some && track.sample_freq_index is Some
            && track.channel_config is Some),
        r matches Some(h) ==> h@ == spec_adts_header(
            track.object_type->Some_0,
            track.sample_freq_index->Some_0,
            track.channel_config->Some_0,
            sample.bytes@.len(),
        ),
        r matches Some(h) ==> h@.len() == 7 && h@[0] == 0xff && h@[1] == 0xf1,
{
    adts_header_with_payload_len(track, sample.bytes.len())
}

/// Law: every field packed into a header is recoverable from it. For any
/// supported metadata triple and any payload short enough that the frame
/// length fits its 13-bit field, reading the object-type, sample-rate,
/// channel-configuration and frame-length fields back out of the built
/// header returns exactly the codes that were written, and the frame length
/// is the header size 7 plus the payload length.
pub proof fn lemma_header_round_trip(
    t: AudioObjectType,
    f: SampleFreqIndex,
    c: ChannelConfig,
    payload_len: nat,
)
    requires
        payload_len + 7 < 8192,
    ensures
        decoded_object_type_code(spec_adts_header(t, f, c, payload_len)) == object_type_code(t),
        decoded_sample_freq_index_code(spec_adts_header(t, f, c, payload_len))
            == sample_freq_index_code(f),
        decoded_channel_config_code(spec_adts_header(t, f, c, payload_len))
            == channel_config_code(c),
        decoded_frame_length(spec_adts_header(t, f, c, payload_len)) == payload_len + 7,
{
    let oc = object_type_code(t);
    let fi = sample_freq_index_code(f);
    let cc = channel_config_code(c);
    vstd::arithmetic::div_mod::lemma_small_mod(payload_len + 7, 0x10000);
    let fl = spec_frame_length(payload_len);
    assert(fl == payload_len + 7);
    assert((((spec_byte2(oc, fi, cc) >> 6) + 1) as u8) == oc) by (bit_vector)
        requires
            1 <= oc <= 4,
            fi <= 12,
            1 <= cc <= 7,
    ;
    assert(((spec_byte2(oc, fi, cc) >> 2) & 0xf) == fi) by (bit_vector)
        requires
            1 <= oc <= 4,
            fi <= 12,
            1 <= cc <= 7,
    ;
    assert((((spec_byte2(oc, fi, cc) & 1) << 2) | (spec_byte3(cc, fl) >> 6)) == cc)
        by (bit_vector)
        requires
            1 <= oc <= 4,
            fi <= 12,
            1 <= cc <= 7,
            fl < 8192,
    ;
    assert(((((spec_byte3(cc, fl) & 3) as u16) << 11) | ((spec_byte4(fl) as u16) << 3) | ((
    spec_byte5(fl) >> 5) as u16)) == fl) by (bit_vector)
        requires
            1 <= cc <= 7,
            fl < 8192,
    ;
}

} // verus!
