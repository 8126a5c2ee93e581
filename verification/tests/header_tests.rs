use adts::{
    build_adts_header, channel_config_from_code, get_bits, get_bits_u8, object_type_from_code,
    sample_freq_index_from_code, AudioObjectType, AudioSample, AudioTrackMetadata, ChannelConfig,
    SampleFreqIndex,
};

fn decoded_object_type_code(h: &[u8]) -> u8 {
    (h[2] >> 6) + 1
}

fn decoded_sample_freq_index_code(h: &[u8]) -> u8 {
    (h[2] >> 2) & 0xf
}

fn decoded_channel_config_code(h: &[u8]) -> u8 {
    ((h[2] & 1) << 2) | (h[3] >> 6)
}

fn decoded_frame_length(h: &[u8]) -> u16 {
    (((h[3] & 3) as u16) << 11) | ((h[4] as u16) << 3) | ((h[5] >> 5) as u16)
}

fn all_object_types() -> Vec<(AudioObjectType, u8)> {
    vec![
        (AudioObjectType::AacMain, 1),
        (AudioObjectType::AacLowComplexity, 2),
        (AudioObjectType::AacScalableSampleRate, 3),
        (AudioObjectType::AacLongTermPrediction, 4),
    ]
}

fn all_sample_freq_indexes() -> Vec<(SampleFreqIndex, u8)> {
    vec![
        (SampleFreqIndex::Freq96000, 0),
        (SampleFreqIndex::Freq88200, 1),
        (SampleFreqIndex::Freq64000, 2),
        (SampleFreqIndex::Freq48000, 3),
        (SampleFreqIndex::Freq44100, 4),
        (SampleFreqIndex::Freq32000, 5),
        (SampleFreqIndex::Freq24000, 6),
        (SampleFreqIndex::Freq22050, 7),
        (SampleFreqIndex::Freq16000, 8),
        (SampleFreqIndex::Freq12000, 9),
        (SampleFreqIndex::Freq11025, 10),
        (SampleFreqIndex::Freq8000, 11),
        (SampleFreqIndex::Freq7350, 12),
    ]
}

fn all_channel_configs() -> Vec<(ChannelConfig, u8)> {
    vec![
        (ChannelConfig::Mono, 1),
        (ChannelConfig::Stereo, 2),
        (ChannelConfig::Three, 3),
        (ChannelConfig::Four, 4),
        (ChannelConfig::Five, 5),
        (ChannelConfig::FiveOne, 6),
        (ChannelConfig::SevenOne, 7),
    ]
}

fn metadata(
    t: AudioObjectType,
    f: SampleFreqIndex,
    c: ChannelConfig,
) -> AudioTrackMetadata {
    AudioTrackMetadata {
        object_type: Some(t),
        sample_freq_index: Some(f),
        channel_config: Some(c),
    }
}

fn sample_of_len(len: usize) -> AudioSample {
    AudioSample { bytes: vec![0u8; len] }
}

#[test]
fn full_range_extraction_is_identity_u16() {
    for v in [0u16, 1, 0x00ff, 0xa5a5, 0x8000, 0xffff] {
        assert_eq!(get_bits(v, 1, 16), v);
    }
}

#[test]
fn full_range_extraction_is_identity_u8() {
    for v in [0u8, 1, 0x0f, 0xa5, 0x80, 0xff] {
        assert_eq!(get_bits_u8(v, 1, 8), v);
    }
}

#[test]
fn extract_bits_known_literal() {
    assert_eq!(get_bits_u8(0b1010_1100, 1, 4), 0b0000_1010);
    assert_eq!(get_bits_u8(0b1010_1100, 1, 4), 10);
}

#[test]
fn extract_bits_boundary_ranges() {
    assert_eq!(get_bits_u8(0b1010_1100, 1, 1), 1);
    assert_eq!(get_bits_u8(0b1010_1100, 8, 8), 0);
    assert_eq!(get_bits_u8(0b1010_1100, 5, 8), 0b1100);
    assert_eq!(get_bits(0b1100_0000_0000_0001, 1, 2), 0b11);
    assert_eq!(get_bits(0b1100_0000_0000_0001, 16, 16), 1);
    assert_eq!(get_bits(0b0000_0000_0110_1011, 3, 5), 0);
    assert_eq!(get_bits(0b0000_0000_0110_1011, 6, 13), 0b0000_1101);
    assert_eq!(get_bits(0b0000_0000_0110_1011, 14, 16), 0b011);
}

#[test]
fn sync_bytes_for_all_supported_inputs() {
    for &(t, _) in all_object_types().iter() {
        for &(f, _) in all_sample_freq_indexes().iter() {
            for &(c, _) in all_channel_configs().iter() {
                for len in [0usize, 1, 100, 8184, 8185, 100_000] {
                    let header = build_adts_header(&metadata(t, f, c), &sample_of_len(len))
                        .expect("supported inputs must produce a header");
                    assert_eq!(header.len(), 7);
                    assert_eq!(header[0], 0xff);
                    assert_eq!(header[1], 0xf1);
                }
            }
        }
    }
}

#[test]
fn round_trip_for_all_supported_inputs() {
    for &(t, t_code) in all_object_types().iter() {
        for &(f, f_code) in all_sample_freq_indexes().iter() {
            for &(c, c_code) in all_channel_configs().iter() {
                for len in [0usize, 1, 2, 100, 1000, 8184] {
                    let header = build_adts_header(&metadata(t, f, c), &sample_of_len(len))
                        .expect("supported inputs must produce a header");
                    assert_eq!(decoded_object_type_code(&header), t_code);
                    assert_eq!(decoded_sample_freq_index_code(&header), f_code);
                    assert_eq!(decoded_channel_config_code(&header), c_code);
                    assert_eq!(decoded_frame_length(&header), (len + 7) as u16);
                }
            }
        }
    }
}

#[test]
fn unsupported_object_type_yields_no_header() {
    let track = AudioTrackMetadata {
        object_type: None,
        sample_freq_index: Some(SampleFreqIndex::Freq44100),
        channel_config: Some(ChannelConfig::Stereo),
    };
    assert!(build_adts_header(&track, &sample_of_len(100)).is_none());
}

#[test]
fn unsupported_sample_rate_yields_no_header() {
    let track = AudioTrackMetadata {
        object_type: Some(AudioObjectType::AacLowComplexity),
        sample_freq_index: None,
        channel_config: Some(ChannelConfig::Stereo),
    };
    assert!(build_adts_header(&track, &sample_of_len(100)).is_none());
}

#[test]
fn unsupported_channel_config_yields_no_header() {
    let track = AudioTrackMetadata {
        object_type: Some(AudioObjectType::AacLowComplexity),
        sample_freq_index: Some(SampleFreqIndex::Freq44100),
        channel_config: None,
    };
    assert!(build_adts_header(&track, &sample_of_len(100)).is_none());
}

#[test]
fn supported_codes_resolve_to_their_value() {
    for &(t, code) in all_object_types().iter() {
        assert_eq!(object_type_from_code(code), Some(t));
    }
    for &(f, code) in all_sample_freq_indexes().iter() {
        assert_eq!(sample_freq_index_from_code(code), Some(f));
    }
    for &(c, code) in all_channel_configs().iter() {
        assert_eq!(channel_config_from_code(code), Some(c));
    }
}

#[test]
fn codes_outside_the_fixed_tables_fail() {
    for code in [0u8, 5, 6, 17, 42, 255] {
        assert_eq!(object_type_from_code(code), None);
    }
    for code in [13u8, 14, 15, 16, 255] {
        assert_eq!(sample_freq_index_from_code(code), None);
    }
    for code in [0u8, 8, 9, 15, 255] {
        assert_eq!(channel_config_from_code(code), None);
    }
}

#[test]
fn stereo_low_complexity_44100_scenario() {
    let track = metadata(
        AudioObjectType::AacLowComplexity,
        SampleFreqIndex::Freq44100,
        ChannelConfig::Stereo,
    );
    let header = build_adts_header(&track, &sample_of_len(100)).unwrap();
    assert_eq!(header, vec![0xff, 0xf1, 0x52, 0xbc, 0x0d, 0x7f, 0xfc]);
    // object-type field: code 2 stored minus one.
    assert_eq!(header[2] >> 6, 0b01);
    // sample-rate field: index 4.
    assert_eq!((header[2] >> 2) & 0xf, 0b0100);
    // channel-configuration field: code 2, high bit then low 2 bits.
    assert_eq!(header[2] & 1, 0);
    assert_eq!(header[3] >> 6, 0b10);
    // frame length 7 + 100 reassembled across bytes 3..=5.
    assert_eq!(decoded_frame_length(&header), 107);
}

#[test]
fn frame_length_truncates_beyond_13_bits() {
    // 8185 + 7 = 8192 needs a 14th bit, which the packed field cannot hold.
    let track = metadata(
        AudioObjectType::AacLowComplexity,
        SampleFreqIndex::Freq44100,
        ChannelConfig::Stereo,
    );
    let header = build_adts_header(&track, &sample_of_len(8185)).unwrap();
    assert_eq!(decoded_frame_length(&header), 0);
    let header = build_adts_header(&track, &sample_of_len(8186)).unwrap();
    assert_eq!(decoded_frame_length(&header), 1);
}

#[test]
fn mp4_track_without_audio_config_gives_no_header() {
    let track = mp4::Mp4Track {
        trak: Default::default(),
        trafs: Vec::new(),
        default_sample_duration: 0,
    };
    let sample = mp4::Mp4Sample {
        start_time: 0,
        duration: 0,
        rendering_offset: 0,
        is_sync: false,
        bytes: Default::default(),
    };
    assert!(adts::construct_adts_header(&track, &sample).is_none());
}

#[test]
fn mp4_track_with_supported_aac_config_gives_header() {
    let mp4_config = mp4::Mp4Config {
        major_brand: (*b"isom").into(),
        minor_version: 512,
        compatible_brands: vec![(*b"isom").into(), (*b"iso2").into()],
        timescale: 1000,
    };
    let mut writer =
        mp4::Mp4Writer::write_start(std::io::Cursor::new(Vec::<u8>::new()), &mp4_config).unwrap();
    writer
        .add_track(&mp4::TrackConfig {
            track_type: mp4::TrackType::Audio,
            timescale: 44100,
            language: String::from("und"),
            media_conf: mp4::MediaConfig::AacConfig(mp4::AacConfig {
                bitrate: 0,
                profile: mp4::AudioObjectType::AacLowComplexity,
                freq_index: mp4::SampleFreqIndex::Freq44100,
                chan_conf: mp4::ChannelConfig::Stereo,
            }),
        })
        .unwrap();
    let sample = mp4::Mp4Sample {
        start_time: 0,
        duration: 1024,
        rendering_offset: 0,
        is_sync: true,
        bytes: vec![0u8; 100].into(),
    };
    writer.write_sample(1, &sample).unwrap();
    writer.write_end().unwrap();
    let data = writer.into_writer().into_inner();
    let size = data.len() as u64;
    let reader = mp4::Mp4Reader::read_header(std::io::Cursor::new(data), size).unwrap();
    let track = reader.tracks().get(&1).unwrap();
    let header = adts::construct_adts_header(track, &sample).unwrap();
    assert_eq!(header, vec![0xff, 0xf1, 0x52, 0xbc, 0x0d, 0x7f, 0xfc]);
}
