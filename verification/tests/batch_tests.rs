use std::io::{Cursor, Write};

use arkview_core::batch::{scan_many, scan_prepared, ScanInput};
use arkview_core::result::{FileMeta, Timestamp};
use arkview_core::scan::MAX_FILE_SIZE;
use zip::write::SimpleFileOptions;
use zip::ZipWriter;

fn make_zip(entries: &[(&str, bool)]) -> Vec<u8> {
    let mut w = ZipWriter::new(Cursor::new(Vec::new()));
    for (name, is_dir) in entries {
        if *is_dir {
            w.add_directory(*name, SimpleFileOptions::default()).unwrap();
        } else {
            w.start_file(*name, SimpleFileOptions::default()).unwrap();
            w.write_all(b"data").unwrap();
        }
    }
    w.finish().unwrap().into_inner()
}

fn meta_of(size: u64) -> FileMeta {
    FileMeta {
        modified: Some(Timestamp { secs: 123, nanos: 0 }),
        size,
    }
}

#[test]
fn batch_keeps_every_path_and_counts_valid_ones() {
    let good1 = make_zip(&[("a.png", false)]);
    let good2 = make_zip(&[("b.jpg", false), ("c.gif", false)]);
    let bad = make_zip(&[("a.png", false), ("notes.txt", false)]);
    let inputs = vec![
        ScanInput {
            path: "one.zip".to_string(),
            meta: Some(meta_of(good1.len() as u64)),
            data: Some(good1),
        },
        ScanInput {
            path: "two.zip".to_string(),
            meta: Some(meta_of(good2.len() as u64)),
            data: Some(good2),
        },
        ScanInput {
            path: "mixed.zip".to_string(),
            meta: Some(meta_of(bad.len() as u64)),
            data: Some(bad),
        },
        ScanInput {
            path: "gone.zip".to_string(),
            meta: None,
            data: None,
        },
        ScanInput {
            path: "huge.zip".to_string(),
            meta: Some(meta_of(MAX_FILE_SIZE + 5)),
            data: None,
        },
    ];
    let results = scan_many(&inputs, true);
    assert_eq!(results.len(), inputs.len());
    let keys: Vec<&str> = results.iter().map(|p| p.0.as_str()).collect();
    assert_eq!(keys, vec!["one.zip", "two.zip", "mixed.zip", "gone.zip", "huge.zip"]);
    let valid = results.iter().filter(|p| p.1.is_valid).count();
    assert_eq!(valid, 2);
    assert!(results[0].1.is_valid);
    assert_eq!(results[0].1.image_count, 1);
    assert!(results[1].1.is_valid);
    assert_eq!(results[1].1.image_count, 2);
    assert!(!results[2].1.is_valid);
    assert_eq!(results[2].1.image_count, 1);
    assert!(!results[3].1.is_valid);
    assert_eq!(results[3].1.size_bytes, None);
    assert!(!results[4].1.is_valid);
    assert_eq!(results[4].1.size_bytes, Some(MAX_FILE_SIZE + 5));
    assert_eq!(results[4].1.image_count, 0);
}

#[test]
fn prepared_scan_with_unreadable_bytes_keeps_metadata() {
    let inp = ScanInput {
        path: "locked.zip".to_string(),
        meta: Some(meta_of(77)),
        data: None,
    };
    let r = scan_prepared(&inp, true);
    assert!(!r.is_valid);
    assert_eq!(r.size_bytes, Some(77));
    assert_eq!(r.image_count, 0);
}

#[test]
fn prepared_scan_ignores_bytes_of_oversized_file() {
    let good = make_zip(&[("a.png", false)]);
    let inp = ScanInput {
        path: "big.zip".to_string(),
        meta: Some(meta_of(MAX_FILE_SIZE + 1)),
        data: Some(good),
    };
    let r = scan_prepared(&inp, true);
    assert!(!r.is_valid);
    assert_eq!(r.image_count, 0);
    assert_eq!(r.members, None);
    assert_eq!(r.size_bytes, Some(MAX_FILE_SIZE + 1));
}

#[test]
fn empty_batch_yields_empty_output() {
    let results = scan_many(&Vec::new(), true);
    assert!(results.is_empty());
}
