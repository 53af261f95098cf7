use std::io::{Cursor, Write};

use esptools::bundle::{gunzip, Bundle};
use esptools::error::{Failure, ToolError};
use esptools::index::{entry_matches, find_entry, MatchRule};
use esptools::mount::{MountAction, MountTable};
use esptools::reader::SliceReader;
use esptools::stream::CHUNK;
use esptools::tool::Tool;
use esptools::zippedtools::{Tool as ZipTool, ZippedTools};

const ABC_SHA1: &str = "a9993e364706816aba3e25717850c26c9cd0d89d";
const EMPTY_SHA1: &str = "da39a3ee5e6b4b0d3255bfef95601890afd80709";

fn zip_of(entries: &[(&str, &[u8])]) -> Vec<u8> {
    let mut writer = zip::ZipWriter::new(Cursor::new(Vec::new()));
    for (name, content) in entries {
        writer
            .start_file(*name, zip::write::SimpleFileOptions::default())
            .unwrap();
        writer.write_all(content).unwrap();
    }
    writer.finish().unwrap().into_inner()
}

fn gzip_of(content: &[u8]) -> Vec<u8> {
    let mut encoder = flate2::write::GzEncoder::new(Vec::new(), flate2::Compression::default());
    encoder.write_all(content).unwrap();
    encoder.finish().unwrap()
}

fn kind<T>(outcome: Result<T, Failure>) -> Result<T, ToolError> {
    outcome.map_err(|failure| failure.kind())
}

fn patterned(len: usize) -> Vec<u8> {
    (0..len).map(|i| (i * 31 % 251) as u8).collect()
}

fn reference_sha1(content: &[u8]) -> String {
    let digest = <sha1::Sha1 as sha1::Digest>::digest(content);
    let mut text = String::new();
    for byte in digest.as_slice() {
        text.push_str(&format!("{:02x}", byte));
    }
    text
}

#[test]
fn suffix_match_finds_nested_entry() {
    let bytes = zip_of(&[
        ("esptool-v4.8.1-linux-amd64/README.md", b"read me"),
        ("esptool-v4.8.1-linux-amd64/esptool", b"abc"),
        ("esptool-v4.8.1-linux-amd64/espsecure", b"secure"),
    ]);
    let tools = ZippedTools::new(SliceReader::new(&bytes), false).unwrap();
    assert_eq!(tools.find(ZipTool::EspTool), Ok(1));
    assert_eq!(tools.find(ZipTool::EspSecure), Ok(2));
}

#[test]
fn suffix_match_without_entry_is_entry_not_found() {
    let bytes = zip_of(&[("esptool-v4.8.1-linux-amd64/esptool", b"abc")]);
    let tools = ZippedTools::new(SliceReader::new(&bytes), false).unwrap();
    assert_eq!(tools.find(ZipTool::EspEfuse), Err(ToolError::EntryNotFound));
    let windows = ZippedTools::new(SliceReader::new(&bytes), true).unwrap();
    assert_eq!(windows.find(ZipTool::EspTool), Err(ToolError::EntryNotFound));
}

#[test]
fn suffix_match_takes_the_first_of_several() {
    let bytes = zip_of(&[
        ("a/espefuse", b"first"),
        ("b/espefuse", b"second"),
    ]);
    let mut tools = ZippedTools::new(SliceReader::new(&bytes), false).unwrap();
    assert_eq!(tools.find(ZipTool::EspEfuse), Ok(0));
    let mut out = Vec::new();
    tools.extract(ZipTool::EspEfuse, &mut out).unwrap();
    assert_eq!(out, b"first");
}

#[test]
fn file_names_are_listed_in_directory_order() {
    let bytes = zip_of(&[("z/esptool", b"1"), ("a/espsecure", b"2"), ("m/espefuse", b"3")]);
    let tools = ZippedTools::new(SliceReader::new(&bytes), false).unwrap();
    assert_eq!(
        tools.file_names(),
        vec!["z/esptool".to_string(), "a/espsecure".to_string(), "m/espefuse".to_string()]
    );
}

#[test]
fn exact_match_on_windows_name() {
    let names = vec!["espidfnvs.exe".to_string()];
    assert_eq!(find_entry(&names, Tool::EspIdfNvs.name(true), MatchRule::Exact), Some(0));
    assert_eq!(find_entry(&names, Tool::EspIdfNvs.name(false), MatchRule::Exact), None);
}

#[test]
fn exact_match_has_no_suffix_relaxation() {
    let names = vec![
        "espidfnvs-v0.0.1/espidfnvs".to_string(),
        "espidfnvs".to_string(),
    ];
    assert_eq!(find_entry(&names, "espidfnvs", MatchRule::Exact), Some(1));
    assert_eq!(find_entry(&names, "espidfnvs", MatchRule::Suffix), Some(0));
    assert_eq!(find_entry(&names, "espidfnvs.exe", MatchRule::Exact), None);
    assert_eq!(find_entry(&names, "espidfnvs.exe", MatchRule::Suffix), None);
}

#[test]
fn entry_matches_by_rule() {
    assert!(entry_matches("dir/esptool", "esptool", MatchRule::Suffix));
    assert!(!entry_matches("dir/esptool", "esptool", MatchRule::Exact));
    assert!(entry_matches("esptool", "esptool", MatchRule::Exact));
    assert!(entry_matches("esptool", "esptool", MatchRule::Suffix));
    assert!(!entry_matches("tool", "esptool", MatchRule::Suffix));
    assert!(entry_matches("anything", "", MatchRule::Suffix));
    assert!(!entry_matches("anything", "", MatchRule::Exact));
}

#[test]
fn find_entry_in_empty_list_is_none() {
    let names: Vec<String> = Vec::new();
    assert_eq!(find_entry(&names, "esptool", MatchRule::Suffix), None);
    assert_eq!(find_entry(&names, "esptool", MatchRule::Exact), None);
}

#[test]
fn extract_copies_content_and_returns_digest() {
    let bytes = zip_of(&[("tools/esptool", b"abc")]);
    let mut tools = ZippedTools::new(SliceReader::new(&bytes), false).unwrap();
    let mut out = vec![7u8];
    let digest = tools.extract(ZipTool::EspTool, &mut out).unwrap();
    assert_eq!(out, vec![b'a', b'b', b'c']);
    assert_eq!(digest, ABC_SHA1);
}

#[test]
fn extract_of_empty_entry() {
    let bytes = zip_of(&[("tools/esptool", b"")]);
    let mut tools = ZippedTools::new(SliceReader::new(&bytes), false).unwrap();
    let mut out = Vec::new();
    let digest = tools.extract(ZipTool::EspTool, &mut out).unwrap();
    assert!(out.is_empty());
    assert_eq!(digest, EMPTY_SHA1);
}

#[test]
fn extract_missing_tool_leaves_sink_empty() {
    let bytes = zip_of(&[("tools/esptool", b"abc")]);
    let mut tools = ZippedTools::new(SliceReader::new(&bytes), false).unwrap();
    let mut out = vec![1u8, 2, 3];
    assert_eq!(kind(tools.extract(ZipTool::EspSecure, &mut out)), Err(ToolError::EntryNotFound));
    assert!(out.is_empty());
}

#[test]
fn extract_spans_many_chunks() {
    let content = patterned(100_000);
    let bytes = zip_of(&[("tools/espsecure", &content)]);
    let mut tools = ZippedTools::new(SliceReader::new(&bytes), false).unwrap();
    let mut out = Vec::new();
    let digest = tools.extract(ZipTool::EspSecure, &mut out).unwrap();
    assert_eq!(out, content);
    assert_eq!(digest, reference_sha1(&content));
    assert_eq!(digest.len(), 40);
}

#[test]
fn sha1_of_is_lowercase_hex_of_the_entry() {
    let bytes = zip_of(&[("tools/esptool.exe", b"abc"), ("tools/espefuse.exe", b"")]);
    let mut tools = ZippedTools::new(SliceReader::new(&bytes), true).unwrap();
    assert_eq!(tools.sha1_of(ZipTool::EspTool).unwrap(), ABC_SHA1);
    assert_eq!(tools.sha1_of(ZipTool::EspEfuse).unwrap(), EMPTY_SHA1);
    assert_eq!(kind(tools.sha1_of(ZipTool::EspSecure)), Err(ToolError::EntryNotFound));
}

#[test]
fn sha1_of_equals_digest_of_extraction() {
    let content = patterned(70_001);
    let bytes = zip_of(&[("x/espefuse", &content)]);
    let mut tools = ZippedTools::new(SliceReader::new(&bytes), false).unwrap();
    let recorded = tools.sha1_of(ZipTool::EspEfuse).unwrap();
    let mut out = Vec::new();
    let computed = tools.extract(ZipTool::EspEfuse, &mut out).unwrap();
    assert_eq!(recorded, computed);
    assert_eq!(tools.sha1_of(ZipTool::EspEfuse).unwrap(), recorded);
}

#[test]
fn garbage_is_a_malformed_container() {
    let bytes = b"this is not a zip archive at all".to_vec();
    match ZippedTools::new(SliceReader::new(&bytes), false) {
        Err(error) => assert_eq!(error, ToolError::ContainerMalformed),
        Ok(_) => panic!("garbage opened as a container"),
    }
    let empty: Vec<u8> = Vec::new();
    match ZippedTools::new(SliceReader::new(&empty), false) {
        Err(error) => assert_eq!(error, ToolError::ContainerMalformed),
        Ok(_) => panic!("nothing opened as a container"),
    }
    let whole = zip_of(&[("tools/esptool", b"abc")]);
    let cut = &whole[..whole.len() - 10];
    match ZippedTools::new(SliceReader::new(cut), false) {
        Err(error) => assert_eq!(error, ToolError::ContainerMalformed),
        Ok(_) => panic!("a truncated container opened"),
    }
}

#[test]
fn corrupt_entry_is_an_io_failure() {
    let content = patterned(5_000);
    let mut bytes = zip_of(&[("tools/esptool", &content)]);
    let at = 30 + "tools/esptool".len() + 40;
    for byte in &mut bytes[at..at + 64] {
        *byte ^= 0x5a;
    }
    let mut tools = ZippedTools::new(SliceReader::new(&bytes), false).unwrap();
    let mut out = Vec::new();
    let failure = tools.extract(ZipTool::EspTool, &mut out).unwrap_err();
    assert_eq!(failure.kind(), ToolError::IoFailure);
    assert!(failure.cause().is_some());
    assert!(out.len() <= content.len());
    assert_eq!(out[..], content[..out.len()]);
    assert_eq!(kind(tools.sha1_of(ZipTool::EspTool)), Err(ToolError::IoFailure));
}

#[test]
fn container_tools_are_three() {
    assert_eq!(ZipTool::iter(), vec![ZipTool::EspTool, ZipTool::EspSecure, ZipTool::EspEfuse]);
    for tool in ZipTool::iter() {
        assert_eq!(tool.basename(), tool.bundled().basename());
        assert_eq!(tool.name(true), tool.bundled().name(true));
        assert_eq!(tool.name(false), tool.basename());
    }
    assert_eq!(ZipTool::EspTool.bundled(), Tool::EspTool);
    assert_eq!(ZipTool::EspSecure.name(true), "espsecure.exe");
    assert_eq!(ZipTool::EspEfuse.basename(), "espefuse");
}

#[test]
fn gunzip_round_trip() {
    let content = patterned(40_000);
    let compressed = gzip_of(&content);
    let mut out = vec![9u8];
    let digest = gunzip(&compressed, &mut out).unwrap();
    assert_eq!(out[0], 9);
    assert_eq!(out[1..], content[..]);
    assert_eq!(digest, reference_sha1(&content));
    assert_eq!(digest.len(), 40);
}

#[test]
fn gunzip_of_known_text() {
    let compressed = gzip_of(b"abc");
    let mut out = Vec::new();
    assert_eq!(gunzip(&compressed, &mut out).unwrap(), ABC_SHA1);
    assert_eq!(out, b"abc");
}

#[test]
fn gunzip_of_garbage_is_an_io_failure() {
    let mut out = Vec::new();
    let failure = gunzip(b"definitely not gzip", &mut out).unwrap_err();
    assert_eq!(failure.kind(), ToolError::IoFailure);
    assert!(failure.cause().is_some());
    assert!(out.is_empty());
}

#[test]
fn gunzip_of_truncated_data_is_an_io_failure() {
    let content = patterned(50_000);
    let compressed = gzip_of(&content);
    let cut = &compressed[..compressed.len() / 2];
    let mut out = Vec::new();
    assert_eq!(kind(gunzip(cut, &mut out)), Err(ToolError::IoFailure));
    assert_eq!(out[..], content[..out.len()]);
}

#[test]
fn bundle_unpack_matches_recorded_digest() {
    let content = patterned(33_000);
    let bytes = zip_of(&[("esptool-v4.8.1-linux-amd64/esptool", &content)]);
    let mut tools = ZippedTools::new(SliceReader::new(&bytes), false).unwrap();
    let recorded = tools.sha1_of(ZipTool::EspTool).unwrap();
    let mut extracted = Vec::new();
    tools.extract(ZipTool::EspTool, &mut extracted).unwrap();

    let mut bundle = Bundle::new();
    bundle
        .insert(ZipTool::EspTool.bundled(), recorded.clone(), gzip_of(&extracted))
        .unwrap();
    let mut out = Vec::new();
    let computed = bundle.unpack(Tool::EspTool, &mut out).unwrap();
    assert_eq!(computed, recorded);
    assert_eq!(Some(computed.as_str()), bundle.sha1(Tool::EspTool));
    assert_eq!(out, content);
}

#[test]
fn bundle_holds_what_was_inserted() {
    let mut bundle = Bundle::new();
    assert_eq!(bundle.sha1(Tool::EspSecure), None);
    assert_eq!(bundle.gz(Tool::EspSecure), None);
    let one = gzip_of(b"abc");
    let two = gzip_of(b"");
    bundle.insert(Tool::EspSecure, ABC_SHA1.to_string(), one.clone()).unwrap();
    bundle.insert(Tool::EspIdfNvs, EMPTY_SHA1.to_string(), two.clone()).unwrap();
    assert_eq!(bundle.sha1(Tool::EspSecure), Some(ABC_SHA1));
    assert_eq!(bundle.gz(Tool::EspSecure), Some(&one[..]));
    assert_eq!(bundle.sha1(Tool::EspIdfNvs), Some(EMPTY_SHA1));
    assert_eq!(bundle.sha1(Tool::EspTool), None);
    bundle.insert(Tool::EspSecure, EMPTY_SHA1.to_string(), two.clone()).unwrap();
    assert_eq!(bundle.sha1(Tool::EspSecure), Some(EMPTY_SHA1));
    assert_eq!(bundle.gz(Tool::EspSecure), Some(&two[..]));
    assert_eq!(bundle.sha1(Tool::EspIdfNvs), Some(EMPTY_SHA1));
}

#[test]
fn bundle_refuses_a_digest_that_differs() {
    let mut bundle = Bundle::new();
    bundle.insert(Tool::EspTool, ABC_SHA1.to_string(), gzip_of(b"abc")).unwrap();
    let failure = bundle
        .insert(Tool::EspTool, EMPTY_SHA1.to_string(), gzip_of(b"abd"))
        .unwrap_err();
    assert_eq!(failure.kind(), ToolError::ContainerMalformed);
    assert!(failure.cause().is_none());
    assert_eq!(bundle.sha1(Tool::EspTool), Some(ABC_SHA1));
    let upper = ABC_SHA1.to_uppercase();
    assert_eq!(
        kind(bundle.insert(Tool::EspSecure, upper, gzip_of(b"abc"))),
        Err(ToolError::ContainerMalformed)
    );
    assert_eq!(bundle.sha1(Tool::EspSecure), None);
}

#[test]
fn bundle_refuses_unsound_data() {
    let mut bundle = Bundle::new();
    let failure = bundle
        .insert(Tool::EspEfuse, ABC_SHA1.to_string(), b"not gzip".to_vec())
        .unwrap_err();
    assert_eq!(failure.kind(), ToolError::IoFailure);
    assert!(failure.cause().is_some());
    let whole = gzip_of(&patterned(10_000));
    let cut = whole[..whole.len() - 4].to_vec();
    assert_eq!(
        kind(bundle.insert(Tool::EspEfuse, reference_sha1(&patterned(10_000)), cut)),
        Err(ToolError::IoFailure)
    );
    assert_eq!(bundle.tools(), Vec::<Tool>::new());
}

#[test]
fn bundle_unpack_of_missing_tool() {
    let bundle = Bundle::new();
    let mut out = vec![5u8];
    let failure = bundle.unpack(Tool::EspEfuse, &mut out).unwrap_err();
    assert_eq!(failure.kind(), ToolError::EntryNotFound);
    assert!(failure.cause().is_none());
    assert_eq!(out, vec![5u8]);
    assert!(bundle.open(Tool::EspEfuse).is_none());
}

#[test]
fn bundle_unpacks_piece_by_piece() {
    let content = patterned(3 * CHUNK + 17);
    let mut bundle = Bundle::new();
    bundle
        .insert(Tool::EspIdfNvs, reference_sha1(&content), gzip_of(&content))
        .unwrap();
    let mut stream = bundle.open(Tool::EspIdfNvs).unwrap();
    let mut buf = vec![0u8; CHUNK];
    let mut out = Vec::new();
    let mut steps = 0;
    loop {
        let n = stream.step(&mut buf).unwrap();
        if n == 0 {
            break;
        }
        assert!(n <= CHUNK);
        out.extend_from_slice(&buf[..n]);
        steps += 1;
    }
    assert!(steps >= 4);
    assert_eq!(out, content);
    assert_eq!(Some(stream.finish().as_str()), bundle.sha1(Tool::EspIdfNvs));
}

#[test]
fn piecewise_digest_covers_what_has_passed() {
    let content = patterned(1_000);
    let mut bundle = Bundle::new();
    bundle
        .insert(Tool::EspTool, reference_sha1(&content), gzip_of(&content))
        .unwrap();
    let stream = bundle.open(Tool::EspTool).unwrap();
    assert_eq!(stream.finish(), EMPTY_SHA1);
    let mut stream = bundle.open(Tool::EspTool).unwrap();
    let mut buf = vec![0u8; 100];
    assert_eq!(stream.step(&mut buf).unwrap(), 100);
    assert_eq!(buf[..], content[..100]);
    assert_eq!(stream.finish(), reference_sha1(&content[..100]));
}

#[test]
fn bundle_mount_uses_the_recorded_digest() {
    let mut bundle = Bundle::new();
    bundle.insert(Tool::EspTool, ABC_SHA1.to_string(), gzip_of(b"abc")).unwrap();
    let mut table = MountTable::new();
    assert_eq!(
        bundle.mount(Tool::EspSecure, &mut table, Some("/cache"), false),
        MountAction::Fail(ToolError::EntryNotFound)
    );
    assert!(table.path_of(Tool::EspSecure).is_none());
    assert_eq!(bundle.mount(Tool::EspTool, &mut table, Some("/cache"), true), MountAction::Probe);
    let path = table.path_of(Tool::EspTool).unwrap();
    assert_eq!(path.root(), "/cache");
    assert_eq!(path.digest(), ABC_SHA1);
    assert_eq!(path.file_name(), "esptool.exe");
    assert_eq!(table.probed(Tool::EspTool, true), MountAction::Ready);
    assert_eq!(bundle.mount(Tool::EspTool, &mut table, None, true), MountAction::Reuse);
}

#[test]
fn bundle_lists_its_tools_in_ordinal_order() {
    let mut bundle = Bundle::new();
    assert_eq!(bundle.tools(), Vec::<Tool>::new());
    bundle.insert(Tool::EspIdfNvs, ABC_SHA1.to_string(), gzip_of(b"abc")).unwrap();
    bundle.insert(Tool::EspSecure, ABC_SHA1.to_string(), gzip_of(b"abc")).unwrap();
    assert_eq!(bundle.tools(), vec![Tool::EspSecure, Tool::EspIdfNvs]);
    bundle.insert(Tool::EspTool, ABC_SHA1.to_string(), gzip_of(b"abc")).unwrap();
    bundle.insert(Tool::EspEfuse, ABC_SHA1.to_string(), gzip_of(b"abc")).unwrap();
    bundle.insert(Tool::EspSecure, EMPTY_SHA1.to_string(), gzip_of(b"")).unwrap();
    assert_eq!(bundle.tools(), Tool::iter());
}

#[test]
fn bundle_selects_only_bundled_tools() {
    let mut bundle = Bundle::new();
    assert_eq!(bundle.select("flash"), None);
    bundle.insert(Tool::EspTool, ABC_SHA1.to_string(), gzip_of(b"abc")).unwrap();
    assert_eq!(bundle.select("flash"), Some(Tool::EspTool));
    assert_eq!(bundle.select("TOOL"), Some(Tool::EspTool));
    assert_eq!(bundle.select("secure"), None);
    assert_eq!(bundle.select("nothing"), None);
}

#[test]
fn container_entry_is_read_piece_by_piece() {
    let content = patterned(2 * CHUNK + 5);
    let bytes = zip_of(&[("tools/espsecure", &content), ("tools/esptool", b"abc")]);
    let mut tools = ZippedTools::new(SliceReader::new(&bytes), false).unwrap();
    let recorded = tools.sha1_of(ZipTool::EspSecure).unwrap();
    {
        let mut stream = tools.open(ZipTool::EspSecure).unwrap();
        let mut buf = vec![0u8; CHUNK];
        let mut out = Vec::new();
        loop {
            let n = stream.step(&mut buf).unwrap();
            if n == 0 {
                break;
            }
            out.extend_from_slice(&buf[..n]);
        }
        assert_eq!(out, content);
        assert_eq!(stream.finish(), recorded);
    }
    assert_eq!(
        tools.open(ZipTool::EspEfuse).map(|_| ()).map_err(|failure| failure.kind()),
        Err(ToolError::EntryNotFound)
    );
    assert_eq!(tools.sha1_of(ZipTool::EspTool).unwrap(), ABC_SHA1);
}
