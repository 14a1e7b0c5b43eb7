use vrc_chat_tool::audio::{create_wav_header, split_chunks, PcmChunker, SegmentRecorder, PCM_CHUNK_BYTES};
use vrc_chat_tool::vad::{is_loud, pcm_sum_squares_exec, usage_seconds, UploadSend, UploadFilter, VadDecision, VadFilter};

fn sine_bytes(n: usize) -> Vec<u8> {
    let samples: Vec<i16> = (0..n).map(|i| ((i as f64 * 0.1).sin() * 16000.0) as i16).collect();
    samples.iter().flat_map(|s| s.to_le_bytes()).collect()
}

#[test]
fn test_create_wav_header() {
    let header = create_wav_header(64000, 16000, 16, 1);
    assert_eq!(&header[0..4], b"RIFF");
    assert_eq!(&header[8..12], b"WAVE");
    assert_eq!(&header[12..16], b"fmt ");
    assert_eq!(header[34], 16);
}

#[test]
fn wav_header_fields() {
    let h = create_wav_header(64000, 16000, 16, 1);
    assert_eq!(h.len(), 44);
    assert_eq!(&h[4..8], &(64000u32 + 36).to_le_bytes());
    assert_eq!(&h[16..20], &16u32.to_le_bytes());
    assert_eq!(&h[20..22], &1u16.to_le_bytes());
    assert_eq!(&h[22..24], &1u16.to_le_bytes());
    assert_eq!(&h[24..28], &16000u32.to_le_bytes());
    assert_eq!(&h[28..32], &32000u32.to_le_bytes());
    assert_eq!(&h[32..34], &2u16.to_le_bytes());
    assert_eq!(&h[36..40], b"data");
    assert_eq!(&h[40..44], &64000u32.to_le_bytes());
}

#[test]
fn chunks_cover_the_data() {
    let data: Vec<u8> = (0..15000u32).map(|i| (i % 251) as u8).collect();
    let chunks = split_chunks(&data, PCM_CHUNK_BYTES);
    assert_eq!(chunks.len(), 3);
    assert_eq!(chunks[0].len(), 6400);
    assert_eq!(chunks[2].len(), 15000 - 12800);
    let joined: Vec<u8> = chunks.concat();
    assert_eq!(joined, data);
}

#[test]
fn chunker_hands_out_whole_chunks_and_keeps_the_rest() {
    let mut c = PcmChunker::new();
    assert!(c.push(&vec![1u8; 5000]).is_empty());
    let out = c.push(&vec![2u8; 5000]);
    assert_eq!(out.len(), 1);
    assert_eq!(out[0].len(), 6400);
    assert_eq!(&out[0][..5000], &vec![1u8; 5000][..]);
    let rest = c.flush().unwrap();
    assert_eq!(rest.len(), 3600);
    assert!(c.flush().is_none());
}

#[test]
fn test_vad_filter_speech_then_silence() {
    let mut vad = VadFilter::new(5000, 300, 16000);
    let speech_bytes = sine_bytes(3200);
    let result = vad.process_i16(&speech_bytes);
    assert_eq!(result, VadDecision::Speech);
    assert!(vad.is_speech());
}

#[test]
fn test_vad_filter_silence() {
    let mut vad = VadFilter::new(5000, 300, 16000);
    let silence = vec![0u8; 6400];
    let result = vad.process_i16(&silence);
    assert_eq!(result, VadDecision::Silence);
}

#[test]
fn test_vad_filter_hangover() {
    let mut vad = VadFilter::new(5000, 300, 16000);
    let speech_bytes = sine_bytes(1600);
    assert_eq!(vad.process_i16(&speech_bytes), VadDecision::Speech);
    let short_silence = vec![0u8; 3200];
    assert_eq!(vad.process_i16(&short_silence), VadDecision::Speech);
    let long_silence = vec![0u8; 12800];
    assert_eq!(vad.process_i16(&long_silence), VadDecision::Silence);
}

#[test]
fn test_vad_filter_reset() {
    let mut vad = VadFilter::new(5000, 300, 16000);
    let speech_bytes = sine_bytes(1600);
    vad.process_i16(&speech_bytes);
    assert!(vad.is_speech());
    vad.reset();
    assert!(!vad.is_speech());
}

#[test]
fn energy_threshold_is_exact() {
    // Two samples of 164: RMS 164, and 164 / 32767 >= 0.005 (163.835 is the threshold).
    let loud = [164u8, 0, 164, 0];
    let quiet = [163u8, 0, 163, 0];
    assert!(is_loud(&loud, 5000));
    assert!(!is_loud(&quiet, 5000));
    // A negative sample counts by its magnitude.
    let neg = (-164i16).to_le_bytes();
    assert!(is_loud(&neg, 5000));
    assert_eq!(pcm_sum_squares_exec(&[0x00, 0x80, 1, 0]), 32768 * 32768 + 1);
    // No whole sample: energy 0.
    assert!(!is_loud(&[7u8], 5000));
    assert!(is_loud(&[], 0));
}

#[test]
fn default_filter_settings() {
    let mut vad = VadFilter::default_16000();
    assert_eq!(vad.process_i16(&[0u8; 100]), VadDecision::Silence);
    assert_eq!(vad.process_i16(&sine_bytes(160)), VadDecision::Speech);
    // 4799 silent samples keep the hangover, the 4800th ends it.
    assert_eq!(vad.process_i16(&vec![0u8; 2 * 4799]), VadDecision::Speech);
    assert_eq!(vad.process_i16(&[0u8, 0]), VadDecision::Silence);
}

#[test]
fn test_recording_keeps_speech_segments() {
    let mut rec = SegmentRecorder::new();
    rec.on_chunk(&vec![0u8; 640]);
    rec.on_chunk(&sine_bytes(1600));
    rec.on_chunk(&vec![0u8; 3200]);
    rec.on_chunk(&vec![0u8; 6400]);
    let (saved, speech) = rec.finish();
    // Speech (3200 bytes) plus the 1600 silent samples under 0.3 s of trailing silence.
    assert_eq!(saved.len(), 3200 + 3200);
    assert_eq!(speech, 3200);
}

#[test]
fn short_recording_saves_raw_capture() {
    let mut rec = SegmentRecorder::new();
    rec.on_chunk(&vec![0u8; 640]);
    rec.on_chunk(&sine_bytes(100));
    let (saved, speech) = rec.finish();
    assert_eq!(saved.len(), 840);
    assert_eq!(speech, 100);
}

#[test]
fn upload_without_detector_passes_and_counts() {
    let mut g = UploadFilter::new(false, true, 0);
    assert_eq!(g.on_chunk(6400, false, VadDecision::Silence, false, 10), UploadSend::Chunk);
    assert_eq!(g.bytes_sent(), 6400);
    let mut local = UploadFilter::new(false, false, 0);
    assert_eq!(local.on_chunk(6400, false, VadDecision::Silence, false, 10), UploadSend::Chunk);
    assert_eq!(local.bytes_sent(), 0);
}

#[test]
fn upload_flushes_one_second_of_silence_then_keeps_alive() {
    let mut g = UploadFilter::new(true, true, 0);
    assert_eq!(g.on_chunk(6400, false, VadDecision::Speech, true, 100), UploadSend::Chunk);
    // Speech ended: up to 16000 samples of silence still go out.
    let mut sent = 0u64;
    for i in 0..5 {
        let r = g.on_chunk(6400, i == 0, VadDecision::Silence, false, 200 + i);
        if let UploadSend::Chunk = r {
            sent += 6400;
        } else if let UploadSend::Zeros(n) = r {
            sent += n as u64;
        }
    }
    assert_eq!(sent, 32000);
    assert_eq!(g.on_chunk(6400, false, VadDecision::Silence, false, 300), UploadSend::Nothing);
    assert_eq!(g.on_chunk(6400, false, VadDecision::Silence, false, 5204), UploadSend::Zeros(640));
    assert_eq!(g.bytes_sent(), 6400 + 32000 + 640);
    assert_eq!(usage_seconds(g.bytes_sent()), 2);
}

#[test]
fn test_rms_energy_i16_silence() {
    let silence_i16: Vec<u8> = vec![0u8; 3200];
    // 1600 silent samples: the sum of squares, and so the RMS energy, is 0.
    assert_eq!(pcm_sum_squares_exec(&silence_i16), 0);
    assert!(!is_loud(&silence_i16, 1));
}
