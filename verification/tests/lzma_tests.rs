use lzma::byteio::read_to_end;
use lzma::lzma_ret;
use lzma::ByteSource;
use lzma::ByteSink;
use lzma::LzmaError;
use lzma::LzmaReader;
use lzma::LzmaWriter;
use lzma::SliceSource;
use lzma::VecSink;
use lzma::EXTREME_PRESET;

// A large, compressible text spanning many staging-buffer refills, with
// enough variety that the extreme modifier changes the encoder's output.
fn test_string() -> String {
    let mut s = String::new();
    for i in 0..2000u64 {
        s.push_str(&format!(
            "Lorem ipsum dolor sit amet, consectetur adipiscing elit {}; ",
            i * i
        ));
    }
    s
}

fn write_all<T: ByteSink>(w: &mut LzmaWriter<T>, data: &[u8]) {
    let mut off = 0usize;
    while off < data.len() {
        let n = w.write(&data[off..]).unwrap();
        assert!(n > 0, "writer made no progress");
        off += n;
    }
}

#[test]
fn simple_compress_decompress() {
    let text = test_string();
    let compressed = lzma::compress(&text.clone().into_bytes(), 6).unwrap();
    let decompressed = String::from_utf8(lzma::decompress(&compressed).unwrap()).unwrap();

    assert!(compressed.len() < text.len());
    assert_eq!(text, decompressed);
}

#[test]
fn extreme() {
    let text = test_string();
    let compressed = lzma::compress(&text.clone().into_bytes(), 9).unwrap();
    let extreme_compressed = lzma::compress(&text.clone().into_bytes(), 9 | EXTREME_PRESET).unwrap();
    let decompressed = String::from_utf8(lzma::decompress(&compressed).unwrap()).unwrap();
    let extreme_decompressed =
        String::from_utf8(lzma::decompress(&extreme_compressed).unwrap()).unwrap();

    assert!(extreme_compressed.len() != compressed.len());
    assert_eq!(text, decompressed);
    assert_eq!(text, extreme_decompressed);
}

#[test]
fn reader_wormhole() {
    let text = test_string();
    let compressor =
        LzmaReader::new_compressor(SliceSource::new(text.clone().into_bytes()), 5).unwrap();
    let mut decompressor = LzmaReader::new_decompressor(compressor).unwrap();

    let s = String::from_utf8(read_to_end(&mut decompressor).unwrap()).unwrap();

    assert_eq!(text, s);
}

#[test]
fn writer_wormhole() {
    let text = test_string();
    let decompressor = LzmaWriter::new_decompressor(VecSink::new()).unwrap();
    let mut compressor = LzmaWriter::new_compressor(decompressor, 2).unwrap();

    write_all(&mut compressor, text.as_bytes());
    let decompressor = compressor.finish().unwrap().0;
    let output = decompressor.finish().unwrap().0.into_vec();

    assert_eq!(text, String::from_utf8(output).unwrap());
}

#[test]
fn truncation_causes_error() {
    let mut compressed = lzma::compress(&"Like tears in rain".to_string().into_bytes(), 6).unwrap();
    let bad_len = compressed.len() - 1;
    compressed.truncate(bad_len);
    match lzma::decompress(&compressed) {
        Err(LzmaError::Buf) => (),
        _ => panic!("Decompressing a truncated buffer should return an LzmaError::Buf error"),
    }
}

// Decompressing the stream in here makes the codec report 0 bytes consumed
// from input occasionally. Good for testing that the writer handles that
// correctly.
#[test]
fn test_string_1() {
    let input = b"\xfd\x37\x7a\x58\x5a\x00\x00\x04\xe6\xd6\xb4\x46\x02\x00\x21\x01\x12\x00\x00\x00\x23\xb8\x87\x2c\xe1\x20\xff\x00\x4c\x5d\x00\x30\xef\xfb\xbf\xfe\xa3\xb1\x5e\xe5\xf8\x3f\xb2\xaa\x26\x55\xf8\x68\x70\x41\x70\x15\x0f\x8d\xfd\x1e\x4c\x1b\x8a\x42\xb7\x19\xf4\x69\x18\x71\xae\x66\x23\x8a\x8a\x4d\x2f\xa3\x0d\xd9\x7f\xa6\xe3\x8c\x23\x11\x53\xe0\x59\x18\xc5\x75\x8a\xe2\x77\xf8\xb6\x94\x7f\x0c\x6a\xc0\xde\x74\x49\x64\xe2\xe8\x22\xa0\xfd\x00\xb3\xfd\x27\xbc\xcd\x64\x62\xb1\x00\x01\x68\x80\xc2\x04\x00\x00\x29\x67\x59\x4d\xb1\xc4\x67\xfb\x02\x00\x00\x00\x00\x04\x59\x5a";
    let mut writer = LzmaWriter::new_decompressor(VecSink::new()).unwrap();
    write_all(&mut writer, input);
    let buffer = writer.finish().unwrap().0.into_vec();
    assert_eq!(buffer.len(), 73984); // The decoded string is 73,984 copies of b'a'.
}

// A fixed known-good stream in the legacy (pre-container) format must
// decompress to its known plaintext byte-for-byte.
#[test]
fn test_legacy_format() {
    let fixture: Vec<u8> = vec![
        93, 0, 0, 128, 0, 255, 255, 255, 255, 255, 255, 255, 255, 0, 42, 26, 8, 162, 3, 37,
        102, 241, 75, 120, 197, 162, 5, 255, 46, 230, 217, 210, 32, 26, 173, 52, 248, 226, 29, 232,
        65, 54, 250, 220, 6, 105, 187, 60, 228, 16, 52, 39, 9, 235, 179, 102, 227, 236, 153, 57,
        126, 80, 91, 229, 39, 133, 8, 56, 161, 61, 154, 60, 65, 196, 24, 74, 83, 246, 106, 217,
        253, 207, 252, 211, 213, 210, 225, 63, 254, 237, 12, 0,
    ];
    let plaintext = "The quick brown fox jumps over the lazy dog.\n".repeat(100);
    let decompressed = lzma::decompress(&fixture).unwrap();
    assert_eq!(decompressed, plaintext.as_bytes());
}

// Compressing then decompressing the sentence yields it back identically.
#[test]
fn sentence_round_trip() {
    let sentence = "Like tears in rain";
    let compressed = lzma::compress(sentence.as_bytes(), 6).unwrap();
    let decompressed = lzma::decompress(&compressed).unwrap();
    assert_eq!(sentence.as_bytes(), &decompressed[..]);
}

// Round trip across every preset, with and without the extreme modifier.
#[test]
fn round_trip_all_presets() {
    let data = "A round trip across every preset must reproduce this text. ".repeat(64);
    for preset in 0u32..=9u32 {
        let compressed = lzma::compress(data.as_bytes(), preset).unwrap();
        assert_eq!(lzma::decompress(&compressed).unwrap(), data.as_bytes());
        let compressed_extreme = lzma::compress(data.as_bytes(), preset | EXTREME_PRESET).unwrap();
        assert_eq!(lzma::decompress(&compressed_extreme).unwrap(), data.as_bytes());
    }
}

// Compressing through the writer into a buffer, then decompressing that
// buffer through the reader, reproduces the bytes exactly — across many
// staging-buffer refill cycles.
#[test]
fn writer_to_reader_pipeline() {
    let text = test_string();
    let mut compressor = LzmaWriter::new_compressor(VecSink::new(), 6).unwrap();
    write_all(&mut compressor, text.as_bytes());
    let compressed = compressor.finish().unwrap().0.into_vec();

    let mut decompressor = LzmaReader::new_decompressor(SliceSource::new(compressed)).unwrap();
    let output = read_to_end(&mut decompressor).unwrap();
    assert_eq!(output, text.as_bytes());
}

// A read with a zero-length output buffer returns 0 at once and leaves the
// adapter and its source untouched: a full read afterwards still sees
// everything.
#[test]
fn zero_length_read_returns_zero() {
    let text = "zero-length reads touch neither the source nor the codec";
    let compressed = lzma::compress(text.as_bytes(), 6).unwrap();
    let mut reader = LzmaReader::new_decompressor(SliceSource::new(compressed)).unwrap();

    let mut empty: Vec<u8> = Vec::new();
    assert_eq!(reader.read(&mut empty).unwrap(), 0);
    assert!(empty.is_empty());

    let everything = read_to_end(&mut reader).unwrap();
    assert_eq!(everything, text.as_bytes());
}

// The compressor's output is a new stream, not the input handed back.
#[test]
fn compressed_output_is_a_container_stream() {
    let data = b"some plain bytes that are certainly not an xz stream";
    let compressed = lzma::compress(data, 6).unwrap();
    assert_ne!(&compressed[..], &data[..]);
    // The container magic of the compressed-stream format.
    assert_eq!(&compressed[..6], b"\xfd7zXZ\x00");
}

// An out-of-range preset is rejected at construction with the options kind,
// and no adapter exists.
#[test]
fn bad_preset_gives_options_error() {
    match lzma::compress(b"x", 99) {
        Err(LzmaError::Options) => (),
        other => panic!("expected the options error kind, got {:?}", other.map(|v| v.len())),
    }
}

// Bytes in no recognized format are rejected with the format kind.
#[test]
fn garbage_gives_format_error() {
    match lzma::decompress(b"this is not a compressed stream at all, not even slightly") {
        Err(LzmaError::Format) => (),
        other => panic!("expected the format error kind, got {:?}", other.map(|v| v.len())),
    }
}

#[test]
fn classify_success_statuses() {
    for code in [
        lzma_ret::LzmaOk,
        lzma_ret::LzmaStreamEnd,
        lzma_ret::LzmaNoCheck,
        lzma_ret::LzmaUnsupportedCheck,
        lzma_ret::LzmaGetCheck,
    ] {
        match lzma::classify(code) {
            Ok(_) => (),
            Err(e) => panic!("success status classified as {:?}", e),
        }
    }
}

#[test]
fn classify_failure_statuses() {
    assert!(matches!(lzma::classify(lzma_ret::LzmaMemError), Err(LzmaError::Mem)));
    assert!(matches!(lzma::classify(lzma_ret::LzmaMemlimitError), Err(LzmaError::MemLimit)));
    assert!(matches!(lzma::classify(lzma_ret::LzmaFormatError), Err(LzmaError::Format)));
    assert!(matches!(lzma::classify(lzma_ret::LzmaOptionsError), Err(LzmaError::Options)));
    assert!(matches!(lzma::classify(lzma_ret::LzmaDataError), Err(LzmaError::Data)));
    assert!(matches!(lzma::classify(lzma_ret::LzmaBufError), Err(LzmaError::Buf)));
    assert!(matches!(lzma::classify(lzma_ret::LzmaProgError), Err(LzmaError::Other)));
}

#[test]
fn error_descriptions() {
    assert_eq!(LzmaError::Mem.description(), "Memory allocation failed");
    assert_eq!(LzmaError::MemLimit.description(), "Memory limit would be violated");
    assert_eq!(LzmaError::Format.description(), "XZ magic bytes were not found");
    assert_eq!(LzmaError::Options.description(), "Unsupported compression options");
    assert_eq!(LzmaError::Data.description(), "Corrupt data");
    assert_eq!(
        LzmaError::Buf.description(),
        "Data look like it was truncated or possibly corrupt"
    );
    assert_eq!(LzmaError::Other.description(), "Unknown error");
}

// The in-memory source serves its bytes front to back, in chunks of the
// buffer's size, then reports end of data.
#[test]
fn slice_source_serves_in_order() {
    let mut source = SliceSource::new(vec![1, 2, 3, 4, 5]);
    let mut buf = vec![0u8; 2];
    assert_eq!(source.read_into(&mut buf).unwrap(), 2);
    assert_eq!(buf, vec![1, 2]);
    assert_eq!(source.read_into(&mut buf).unwrap(), 2);
    assert_eq!(buf, vec![3, 4]);
    assert_eq!(source.read_into(&mut buf).unwrap(), 1);
    assert_eq!(buf, vec![5, 4]);
    assert_eq!(source.read_into(&mut buf).unwrap(), 0);
}

// The in-memory sink accepts everything and hands it back in order.
#[test]
fn vec_sink_accumulates() {
    let mut sink = VecSink::new();
    assert_eq!(sink.write_from(b"hello ").unwrap(), 6);
    assert_eq!(sink.write_from(b"world").unwrap(), 5);
    sink.flush_out().unwrap();
    assert_eq!(sink.into_vec(), b"hello world".to_vec());
}

// Flushing the writer passes through to the sink without ending the stream:
// writing still works afterwards and the finished stream is intact.
#[test]
fn writer_flush_is_passthrough() {
    let text = test_string();
    let half = text.len() / 2;
    let mut compressor = LzmaWriter::new_compressor(VecSink::new(), 6).unwrap();
    write_all(&mut compressor, &text.as_bytes()[..half]);
    compressor.flush().unwrap();
    write_all(&mut compressor, &text.as_bytes()[half..]);
    let compressed = compressor.finish().unwrap().0.into_vec();
    assert_eq!(lzma::decompress(&compressed).unwrap(), text.as_bytes());
}
