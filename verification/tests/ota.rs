use b3_iot::http::HeaderField;
use b3_iot::ota::digest::{decode_sha256, nibble};
use b3_iot::ota::download::{DownloadStep, FirmwareDownload, SEGMENT_SIZE};
use b3_iot::ota::error::Rp235xOtaError as TargetError;
use b3_iot::ota::source::Rp235xUpdateSource;
use b3_iot::ota::target::{check_write_len, max_write_size};
use b3_iot::ota::version::{parse_version, version_is_newer};
use b3_iot::ota::{ManifestVersion, Rp235xOta, Rp235xOtaError, UpdateManifest};
use b3_iot::ota_old;

const DIGEST_HEX: &str = "00112233445566778899aabbccddeeffFFEEDDCCBBAA99887766554433221100";

fn digest_bytes() -> [u8; 32] {
    let mut d = [0u8; 32];
    for i in 0..16 {
        d[i] = (i as u8) * 0x11;
        d[31 - i] = (i as u8) * 0x11;
    }
    d
}

fn manifest(major: u32, minor: u32, patch: u32) -> UpdateManifest {
    UpdateManifest {
        version: ManifestVersion { major, minor, patch },
        size: 70_000,
        sha256: DIGEST_HEX.to_string(),
        firmware_url: "https://example.com/fw.bin".to_string(),
    }
}

#[test]
fn version_parsing() {
    assert_eq!(parse_version(b"v1.2.3"), Some((1, 2, 3)));
    assert_eq!(parse_version(b"10.0.7"), Some((10, 0, 7)));
    assert_eq!(parse_version(b"+1.02.3"), Some((1, 2, 3)));
    assert_eq!(parse_version(b"1.2"), None);
    assert_eq!(parse_version(b"1.2.3.4"), None);
    assert_eq!(parse_version(b"1..3"), None);
    assert_eq!(parse_version(b"vv1.2.3"), None);
    assert_eq!(parse_version(b"V1.2.3"), None);
    assert_eq!(parse_version(b"v1.2.x"), None);
    assert_eq!(parse_version(b""), None);
    assert_eq!(parse_version(b"1.2.3."), None);
    assert_eq!(parse_version(b"4294967295.0.0"), Some((u32::MAX, 0, 0)));
    assert_eq!(parse_version(b"4294967296.0.0"), None);
}

#[test]
fn version_through_ota() {
    assert_eq!(Rp235xOta::version("v0.3.1"), Ok((0, 3, 1)));
    assert_eq!(Rp235xOta::version("0.3"), Err(Rp235xOtaError::InvalidVersion));
    assert_eq!(ota_old::Rp235xOta::version("1.0.0"), Ok((1, 0, 0)));
    assert_eq!(ota_old::Rp235xOta::version("x"), Err(ota_old::Rp235xOtaError::InvalidVersion));
}

#[test]
fn version_order() {
    assert!(version_is_newer((1, 0, 0), (0, 9, 9)));
    assert!(version_is_newer((1, 2, 0), (1, 1, 9)));
    assert!(version_is_newer((1, 2, 4), (1, 2, 3)));
    assert!(!version_is_newer((1, 2, 3), (1, 2, 3)));
    assert!(!version_is_newer((0, 9, 9), (1, 0, 0)));
}

#[test]
fn hex_digits() {
    assert_eq!(nibble(b'0'), Some(0));
    assert_eq!(nibble(b'9'), Some(9));
    assert_eq!(nibble(b'a'), Some(10));
    assert_eq!(nibble(b'F'), Some(15));
    assert_eq!(nibble(b'g'), None);
}

#[test]
fn sha256_decoding() {
    assert_eq!(decode_sha256(DIGEST_HEX.as_bytes()), Some(digest_bytes()));
    assert_eq!(Rp235xOta::decode_sha256(DIGEST_HEX), Ok(digest_bytes()));
    assert_eq!(decode_sha256(&DIGEST_HEX.as_bytes()[..63]), None);
    let mut bad = DIGEST_HEX.as_bytes().to_vec();
    bad[40] = b'z';
    assert_eq!(decode_sha256(&bad), None);
    assert_eq!(Rp235xOta::decode_sha256("zz"), Err(Rp235xOtaError::Manifest));
}

#[test]
fn check_offers_only_newer_firmware() {
    let mut ota = Rp235xOta::new("https://example.com/update.json");
    assert_eq!(ota.manifest_url(), "https://example.com/update.json");
    assert!(ota.pending_manifest().is_none());
    assert_eq!(ota.record_available(manifest(1, 2, 3), "v1.2.2"), Ok(true));
    assert_eq!(ota.pending_manifest().map(|m| m.version), Some(ManifestVersion { major: 1, minor: 2, patch: 3 }));
    assert_eq!(ota.record_available(manifest(1, 2, 3), "v1.2.3"), Ok(false));
    assert!(ota.pending_manifest().is_none());
    assert_eq!(ota.record_available(manifest(1, 2, 3), "2.0.0"), Ok(false));
    assert!(ota.pending_manifest().is_none());
    assert_eq!(ota.prepare_update(1 << 20).err(), Some(Rp235xOtaError::NoUpdateAvailable));
}

#[test]
fn check_with_bad_running_version_keeps_state() {
    let mut ota = Rp235xOta::new("https://example.com/update.json");
    assert_eq!(ota.record_available(manifest(2, 0, 0), "1.0.0"), Ok(true));
    assert_eq!(ota.record_available(manifest(3, 0, 0), "one"), Err(Rp235xOtaError::InvalidVersion));
    assert_eq!(ota.pending_manifest().map(|m| m.version.major), Some(2));
}

#[test]
fn prepare_update_errors() {
    let mut ota = Rp235xOta::new("u");
    assert_eq!(ota.prepare_update(1 << 20).err(), Some(Rp235xOtaError::NoUpdateAvailable));

    let mut empty = manifest(9, 0, 0);
    empty.size = 0;
    ota.record_available(empty, "1.0.0").unwrap();
    assert_eq!(ota.prepare_update(1 << 20).err(), Some(Rp235xOtaError::Manifest));

    let mut plain = manifest(9, 0, 0);
    plain.firmware_url = "http://example.com/fw.bin".to_string();
    ota.record_available(plain, "1.0.0").unwrap();
    assert_eq!(ota.prepare_update(1 << 20).err(), Some(Rp235xOtaError::Manifest));

    let mut short = manifest(9, 0, 0);
    short.sha256 = "abcd".to_string();
    ota.record_available(short, "1.0.0").unwrap();
    assert_eq!(ota.prepare_update(1 << 20).err(), Some(Rp235xOtaError::Manifest));

    let mut not_hex = manifest(9, 0, 0);
    not_hex.sha256 = DIGEST_HEX.replace('a', "g");
    ota.record_available(not_hex, "1.0.0").unwrap();
    assert_eq!(ota.prepare_update(1 << 20).err(), Some(Rp235xOtaError::Manifest));

    ota.record_available(manifest(9, 0, 0), "1.0.0").unwrap();
    assert_eq!(ota.prepare_update(69_999).err(), Some(Rp235xOtaError::FirmwareTooLarge));
}

#[test]
fn prepared_job_checks_digest() {
    let mut ota = Rp235xOta::new("u");
    ota.record_available(manifest(9, 0, 0), "1.0.0").unwrap();
    let job = ota.prepare_update(70_000).unwrap();
    assert_eq!(job.firmware_url(), "https://example.com/fw.bin");
    assert_eq!(job.size(), 70_000);
    assert_eq!(job.verify_digest(&digest_bytes()), Ok(()));
    let mut other = digest_bytes();
    other[31] ^= 1;
    assert_eq!(job.verify_digest(&other), Err(Rp235xOtaError::FirmwareHashMismatch));
}

fn header(name: &str, value: &str) -> HeaderField {
    HeaderField { name: name.as_bytes().to_vec(), value: value.as_bytes().to_vec() }
}

fn fetch_segment(d: &mut FirmwareDownload, len: usize, writes: &mut Vec<(usize, usize)>) -> DownloadStep {
    assert_eq!(d.on_response(206, Some(len), &[]), DownloadStep::Read);
    let mut left = len;
    while left > 0 {
        let n = left.min(4096);
        match d.on_chunk(n) {
            DownloadStep::Write { at, len } => writes.push((at, len)),
            other => panic!("unexpected {:?}", other),
        }
        assert_eq!(d.on_written(true), DownloadStep::Read);
        left -= n;
    }
    d.on_chunk(0)
}

#[test]
fn download_writes_whole_image_in_segments() {
    let mut d = FirmwareDownload::new(b"https://example.com/fw.bin", 70_000);
    let mut writes = Vec::new();
    assert_eq!(d.next(), DownloadStep::Send);
    assert_eq!(d.range_header(), b"bytes=0-32767".to_vec());
    assert_eq!(fetch_segment(&mut d, SEGMENT_SIZE, &mut writes), DownloadStep::Send);
    assert_eq!(d.downloaded(), 32768);
    assert_eq!(d.range_header(), b"bytes=32768-65535".to_vec());
    assert_eq!(fetch_segment(&mut d, SEGMENT_SIZE, &mut writes), DownloadStep::Send);
    assert_eq!(d.range_header(), b"bytes=65536-69999".to_vec());
    assert_eq!(fetch_segment(&mut d, 4464, &mut writes), DownloadStep::Finished);
    assert_eq!(d.downloaded(), 70_000);
    let mut next = 0;
    for (at, len) in writes {
        assert_eq!(at, next);
        next += len;
    }
    assert_eq!(next, 70_000);
}

#[test]
fn download_of_empty_image_finishes() {
    let mut d = FirmwareDownload::new(b"https://example.com/fw.bin", 0);
    assert_eq!(d.next(), DownloadStep::Finished);
}

#[test]
fn download_size_mismatches() {
    let mut d = FirmwareDownload::new(b"https://e/fw", 100);
    d.next();
    assert_eq!(d.on_response(206, Some(99), &[]), DownloadStep::Fail(Rp235xOtaError::FirmwareSizeMismatch));
    let mut d = FirmwareDownload::new(b"https://e/fw", 100);
    d.next();
    d.on_response(206, Some(100), &[]);
    assert_eq!(d.on_chunk(101), DownloadStep::Fail(Rp235xOtaError::FirmwareSizeMismatch));
    let mut d = FirmwareDownload::new(b"https://e/fw", 100);
    d.next();
    d.on_response(206, Some(100), &[]);
    assert_eq!(d.on_chunk(60), DownloadStep::Write { at: 0, len: 60 });
    assert_eq!(d.on_written(true), DownloadStep::Read);
    assert_eq!(d.on_chunk(0), DownloadStep::Fail(Rp235xOtaError::FirmwareSizeMismatch));
}

#[test]
fn download_flash_failure_stops() {
    let mut d = FirmwareDownload::new(b"https://e/fw", 100);
    d.next();
    d.on_response(206, Some(100), &[]);
    d.on_chunk(10);
    assert_eq!(d.on_written(false), DownloadStep::Fail(Rp235xOtaError::Flash));
}

#[test]
fn download_retries_network_failures() {
    let mut d = FirmwareDownload::new(b"https://e/fw", 100);
    assert_eq!(d.next(), DownloadStep::Send);
    assert_eq!(d.on_response(500, None, &[]), DownloadStep::Wait);
    assert_eq!(d.next(), DownloadStep::Send);
    assert_eq!(d.on_failure(), DownloadStep::Wait);
    assert_eq!(d.next(), DownloadStep::Send);
    let insecure = vec![header("Location", "http://e/fw")];
    assert_eq!(d.on_response(302, None, &insecure), DownloadStep::Wait);
    assert_eq!(d.next(), DownloadStep::Send);
    assert_eq!(d.on_response(302, None, &[]), DownloadStep::Wait);
    assert_eq!(d.next(), DownloadStep::Send);
    assert_eq!(d.on_failure(), DownloadStep::Fail(Rp235xOtaError::Http));
}

#[test]
fn download_follows_redirects() {
    let mut d = FirmwareDownload::new(b"https://e/fw", 10);
    d.next();
    let loc = vec![header("location", "https://cdn/fw")];
    assert_eq!(d.on_response(302, None, &loc), DownloadStep::Send);
    assert_eq!(d.request_url(), b"https://cdn/fw");
    let long = format!("https://{}", "a".repeat(3000));
    let too_long = vec![header("location", &long)];
    assert_eq!(d.on_response(302, None, &too_long), DownloadStep::Fail(Rp235xOtaError::ManifestFieldTooLong));
}

#[test]
fn download_with_long_url_fails() {
    let long = vec![b'a'; 2049];
    let mut d = FirmwareDownload::new(&long, 10);
    assert_eq!(d.next(), DownloadStep::Fail(Rp235xOtaError::ManifestFieldTooLong));
}

#[test]
fn job_download_starts_at_zero() {
    let mut ota = Rp235xOta::new("u");
    ota.record_available(manifest(9, 0, 0), "1.0.0").unwrap();
    let job = ota.prepare_update(1 << 20).unwrap();
    let mut d = job.download();
    assert_eq!(d.downloaded(), 0);
    assert_eq!(d.next(), DownloadStep::Send);
    assert_eq!(d.request_url(), b"https://example.com/fw.bin");
}

#[test]
fn firmware_range_for_reads() {
    assert_eq!(Rp235xUpdateSource::firmware_range(10, 0), None);
    assert_eq!(Rp235xUpdateSource::firmware_range(10, 5), Some((10, 14)));
    assert_eq!(ota_old::Rp235xUpdateSource::chunk_range(4096, 4096), (4096, 8191));
    assert_eq!(ota_old::Rp235xUpdateSource::chunk_range(5, 0), (5, 4));
    assert_eq!(ota_old::Rp235xUpdateSource::chunk_range(0, 1), (0, 0));
}

#[test]
fn write_size_limit() {
    assert_eq!(max_write_size(), 4096);
    assert_eq!(check_write_len(4096), Ok(()));
    assert_eq!(check_write_len(0), Ok(()));
    assert_eq!(check_write_len(4097), Err(TargetError::WriteChunkTooLarge));
}

#[test]
fn chunked_update_covers_image() {
    let mut ota = ota_old::Rp235xOta::new("https://example.com/update.json");
    assert_eq!(ota.prepare_update(1 << 20).err(), Some(ota_old::Rp235xOtaError::NoUpdateAvailable));
    let mut m = manifest(1, 0, 1);
    m.size = 10_000;
    assert_eq!(ota.record_available(m, "1.0.0"), Ok(true));
    assert_eq!(ota.prepare_update(9_999).err(), Some(ota_old::Rp235xOtaError::FirmwareTooLarge));
    let mut up = ota.prepare_update(10_000).unwrap();
    let mut chunks = Vec::new();
    while let Some((offset, len)) = up.next_chunk() {
        assert_eq!(up.check_received(len - 1), Err(ota_old::Rp235xOtaError::FirmwareSizeMismatch));
        assert_eq!(up.check_received(len), Ok(()));
        chunks.push((offset, len));
        up.advance();
    }
    assert_eq!(chunks, vec![(0, 4096), (4096, 4096), (8192, 1808)]);
    assert_eq!(up.written(), 10_000);
    assert_eq!(up.verify_digest(&digest_bytes()), Ok(()));
    assert_eq!(up.verify_digest(&[0u8; 32]), Err(ota_old::Rp235xOtaError::FirmwareHashMismatch));
}

#[test]
fn old_check_keeps_pending_on_bad_version() {
    let mut ota = ota_old::Rp235xOta::new("https://example.com/update.json");
    assert_eq!(ota.record_available(manifest(1, 0, 0), "1.0"), Err(ota_old::Rp235xOtaError::InvalidVersion));
    assert!(ota.pending_manifest().is_none());
    assert_eq!(ota.record_available(manifest(1, 0, 0), "1.0.0"), Ok(false));
}

fn header_pairs(headers: Vec<HeaderField>) -> Vec<(Vec<u8>, Vec<u8>)> {
    headers.into_iter().map(|h| (h.name, h.value)).collect()
}

#[test]
fn download_requests_carry_range_and_close() {
    let mut d = FirmwareDownload::new(b"https://example.com/fw.bin", 70_000);
    assert_eq!(d.next(), DownloadStep::Send);
    assert_eq!(
        header_pairs(d.request_headers()),
        vec![(b"Range".to_vec(), b"bytes=0-32767".to_vec()), (b"Connection".to_vec(), b"close".to_vec())]
    );
}

#[test]
fn download_writes_fit_one_flash_write() {
    let mut d = FirmwareDownload::new(b"https://e/fw", 10_000);
    d.next();
    assert_eq!(d.on_response(206, Some(10_000), &[]), DownloadStep::Read);
    assert_eq!(d.on_chunk(max_write_size()), DownloadStep::Write { at: 0, len: 4096 });
    assert_eq!(d.on_written(true), DownloadStep::Read);
    assert_eq!(d.on_chunk(4096), DownloadStep::Write { at: 4096, len: 4096 });
    assert_eq!(d.on_written(true), DownloadStep::Read);
    assert_eq!(d.on_chunk(1808), DownloadStep::Write { at: 8192, len: 1808 });
    assert_eq!(d.on_written(true), DownloadStep::Read);
    assert_eq!(d.on_chunk(0), DownloadStep::Finished);
}

#[test]
fn version_text_reads_back() {
    for (a, b, c) in [(0u32, 0u32, 0u32), (1, 2, 3), (10, 0, 7), (u32::MAX, 65_536, 9), (7, u32::MAX, 100)] {
        let plain = format!("{}.{}.{}", a, b, c);
        let with_v = format!("v{}.{}.{}", a, b, c);
        assert_eq!(parse_version(plain.as_bytes()), Some((a, b, c)));
        assert_eq!(Rp235xOta::version(&plain), Ok((a, b, c)));
        assert_eq!(Rp235xOta::version(&with_v), Ok((a, b, c)));
    }
}
