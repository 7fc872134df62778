use isoflash::digest::DigestState;
use isoflash::flasher::FlashEngine;
use isoflash::session::{FlashError, FlashStatus};

#[test]
fn engine_drives_a_whole_image_through() {
    let image: Vec<u8> = (0u32..2500).map(|i| (i % 256) as u8).collect();
    let mut engine = FlashEngine::new(image.len(), 1024);
    engine.start(4096).expect("image fits");
    let mut pos = 0;
    let mut lens = Vec::new();
    while !engine.done() {
        let len = engine.next_chunk_len();
        lens.push(len);
        engine.chunk_written(&image[pos..pos + len]);
        pos += len;
    }
    assert_eq!(lens, vec![1024, 1024, 452]);
    engine.begin_flush();
    let stats = engine.flush_ok();
    assert_eq!(stats.bytes_written, image.len());
    assert_eq!(engine.session().status(), FlashStatus::Completed);

    let mut whole = DigestState::new();
    whole.update(&image);
    assert_eq!(stats.digest, whole.finish());
}

#[test]
fn engine_rejects_an_oversized_image_before_any_write() {
    let mut engine = FlashEngine::new(4096, 512);
    let err = engine.start(4095).unwrap_err();
    assert_eq!(err, FlashError::Capacity { image_size: 4096, device_capacity: 4095 });
    assert_eq!(engine.session().status(), FlashStatus::Failed);
    assert_eq!(engine.session().bytes_written(), 0);
}

#[test]
fn engine_reports_a_failed_write_with_the_bytes_before_it() {
    let mut engine = FlashEngine::new(1000, 100);
    engine.start(1000).expect("image fits");
    engine.chunk_written(&[1u8; 100]);
    engine.chunk_written(&[2u8; 100]);
    let err = engine.write_failed();
    assert_eq!(err, FlashError::DeviceWrite { bytes_written: 200 });
    assert_eq!(engine.session().status(), FlashStatus::Failed);
}

#[test]
fn engine_reports_a_failed_source_read() {
    let mut engine = FlashEngine::new(1000, 100);
    engine.start(1000).expect("image fits");
    engine.chunk_written(&[3u8; 100]);
    let err = engine.read_failed();
    assert_eq!(err, FlashError::SourceRead);
    assert_eq!(engine.session().status(), FlashStatus::Failed);
    assert_eq!(engine.session().bytes_written(), 100);
}

#[test]
fn engine_reports_a_failed_flush() {
    let mut engine = FlashEngine::new(100, 100);
    engine.start(100).expect("image fits");
    engine.chunk_written(&[4u8; 100]);
    engine.begin_flush();
    let err = engine.flush_failed();
    assert_eq!(err, FlashError::Flush { bytes_written: 100 });
    assert_eq!(engine.session().status(), FlashStatus::Failed);
}
