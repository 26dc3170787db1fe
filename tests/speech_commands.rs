use burn_fusion_kernel::speech_commands::{
    ConvertSamples, DecodedAudio, SpeechCommandClass, SpeechCommandsDataset, SpeechError,
    SpeechItemRaw, WavAudio,
};

fn wav_bytes(bits: u16, rate: u32, samples: &[i32]) -> Vec<u8> {
    let spec = hound::WavSpec {
        channels: 1,
        sample_rate: rate,
        bits_per_sample: bits,
        sample_format: hound::SampleFormat::Int,
    };
    let mut cursor = std::io::Cursor::new(Vec::new());
    {
        let mut writer = hound::WavWriter::new(&mut cursor, spec).unwrap();
        for s in samples {
            writer.write_sample(*s).unwrap();
        }
        writer.finalize().unwrap();
    }
    cursor.into_inner()
}

fn raw(label: usize) -> SpeechItemRaw {
    SpeechItemRaw { audio_bytes: vec![1, 2, 3], label, is_unknown: false }
}

#[test]
fn target_words_keep_their_class() {
    assert_eq!(ConvertSamples::word_choice(0), SpeechCommandClass::Yes);
    assert_eq!(ConvertSamples::word_choice(9), SpeechCommandClass::Go);
    assert_eq!(ConvertSamples::word_choice(19), SpeechCommandClass::Nine);
}

#[test]
fn other_words_are_grouped() {
    assert_eq!(ConvertSamples::word_choice(20), SpeechCommandClass::Other);
    assert_eq!(ConvertSamples::word_choice(34), SpeechCommandClass::Other);
    assert_eq!(ConvertSamples::word_choice(36), SpeechCommandClass::Other);
    assert_eq!(ConvertSamples::word_choice(1000), SpeechCommandClass::Other);
    assert_eq!(ConvertSamples::word_choice(35), SpeechCommandClass::Silence);
}

#[test]
fn class_indices_round_trip() {
    for i in 0..=36usize {
        let c = SpeechCommandClass::from_repr(i).unwrap();
        assert_eq!(c.index(), i);
        assert_eq!(ConvertSamples::to_speechcommandclass(i), c);
    }
    assert!(SpeechCommandClass::from_repr(37).is_none());
}

#[test]
fn class_names() {
    assert_eq!(SpeechCommandClass::Marvin.to_string(), "Marvin");
    assert_eq!(SpeechCommandClass::Silence.name(), "Silence");
    assert_eq!(SpeechCommandClass::from_repr(31).unwrap().to_string(), "Forward");
}

#[test]
fn number_of_classes() {
    assert_eq!(SpeechCommandsDataset::num_classes(), 22);
}

#[test]
fn dataset_splits_and_labels() {
    let ds = SpeechCommandsDataset::train(vec![raw(3), raw(26), raw(35), raw(40)]);
    assert_eq!(ds.split(), "train");
    assert_eq!(ds.len(), 4);
    assert_eq!(ds.get_raw(0).unwrap().label, 3);
    assert!(ds.get_raw(4).is_none());
    assert_eq!(ds.get_labels(0), Some((SpeechCommandClass::Down, SpeechCommandClass::Down)));
    assert_eq!(ds.get_labels(1), Some((SpeechCommandClass::Other, SpeechCommandClass::Marvin)));
    assert_eq!(ds.get_labels(2), Some((SpeechCommandClass::Silence, SpeechCommandClass::Silence)));
    assert_eq!(ds.get_labels(3), None);
    assert_eq!(ds.get_labels(9), None);
    assert_eq!(SpeechCommandsDataset::test(vec![]).split(), "test");
    assert_eq!(SpeechCommandsDataset::validation(vec![]).split(), "validation");
    assert_eq!(SpeechCommandsDataset::new("custom", vec![raw(1)]).len(), 1);
}

#[test]
fn decodes_sixteen_bit_audio() {
    let bytes = wav_bytes(16, 16000, &[0, 100, -32768, 32767]);
    let d = ConvertSamples::to_audiosamples(&bytes).unwrap();
    assert_eq!(d.samples, vec![0, 100, -32768, 32767]);
    assert_eq!(d.sample_rate, 16000);
    assert_eq!(d.full_scale, 32768);
}

#[test]
fn decodes_eight_bit_audio() {
    let bytes = wav_bytes(8, 8000, &[-128, 0, 127]);
    let d = ConvertSamples::to_audiosamples(&bytes).unwrap();
    assert_eq!(d.samples, vec![-128, 0, 127]);
    assert_eq!(d.sample_rate, 8000);
    assert_eq!(d.full_scale, 128);
}

#[test]
fn rejects_bytes_that_are_not_wav() {
    let r = ConvertSamples::to_audiosamples(&vec![1, 2, 3, 4]);
    assert_eq!(r.unwrap_err(), SpeechError::InvalidWav);
}

#[test]
fn from_wav_drops_failed_samples() {
    let audio = WavAudio { sample_rate: 44100, bits_per_sample: 24, samples: vec![Some(5), None, Some(-7)] };
    let d: DecodedAudio = DecodedAudio::from_wav(&audio).unwrap();
    assert_eq!(d.samples, vec![5, -7]);
    assert_eq!(d.full_scale, 1 << 23);
    assert_eq!(d.sample_rate, 44100);
    let audio32 = WavAudio { sample_rate: 1, bits_per_sample: 32, samples: vec![] };
    assert_eq!(DecodedAudio::from_wav(&audio32).unwrap().full_scale, 1u64 << 31);
}

#[test]
fn from_wav_rejects_unsupported_widths() {
    let zero = WavAudio { sample_rate: 1, bits_per_sample: 0, samples: vec![] };
    assert_eq!(
        DecodedAudio::from_wav(&zero).unwrap_err(),
        SpeechError::UnsupportedBitsPerSample { bits: 0 }
    );
    let wide = WavAudio { sample_rate: 1, bits_per_sample: 33, samples: vec![] };
    assert_eq!(
        DecodedAudio::from_wav(&wide).unwrap_err(),
        SpeechError::UnsupportedBitsPerSample { bits: 33 }
    );
}

#[test]
fn map_decodes_and_labels() {
    let item = SpeechItemRaw { audio_bytes: wav_bytes(16, 16000, &[1, 2]), label: 22, is_unknown: true };
    let m = ConvertSamples::map(&item).unwrap();
    assert_eq!(m.label, SpeechCommandClass::Other);
    assert_eq!(m.label_original, SpeechCommandClass::Cat);
    assert_eq!(m.audio.samples, vec![1, 2]);
    let bad = SpeechItemRaw { audio_bytes: wav_bytes(16, 16000, &[1]), label: 37, is_unknown: true };
    assert_eq!(ConvertSamples::map(&bad).unwrap_err(), SpeechError::UnknownLabel { label: 37 });
}

#[test]
fn dataset_get_decodes_records() {
    let ds = SpeechCommandsDataset::validation(vec![
        SpeechItemRaw { audio_bytes: wav_bytes(16, 16000, &[9]), label: 5, is_unknown: false },
        SpeechItemRaw { audio_bytes: vec![0], label: 5, is_unknown: false },
    ]);
    let first = ds.get(0).unwrap().unwrap();
    assert_eq!(first.label, SpeechCommandClass::Right);
    assert_eq!(first.audio.samples, vec![9]);
    assert_eq!(ds.get(1).unwrap().unwrap_err(), SpeechError::InvalidWav);
    assert!(ds.get(2).is_none());
}
