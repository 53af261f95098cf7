use std::io::{Read, Seek, SeekFrom};

use esptools::reader::SliceReader;

#[test]
fn read_delivers_the_bytes_in_order() {
    let data = [1u8, 2, 3, 4, 5];
    let mut reader = SliceReader::new(&data);
    let mut buf = [0u8; 2];
    assert_eq!(reader.read(&mut buf).unwrap(), 2);
    assert_eq!(buf, [1, 2]);
    assert_eq!(reader.read(&mut buf).unwrap(), 2);
    assert_eq!(buf, [3, 4]);
    assert_eq!(reader.read(&mut buf).unwrap(), 1);
    assert_eq!(buf, [5, 4]);
    assert_eq!(reader.read(&mut buf).unwrap(), 0);
    assert_eq!(buf, [5, 4]);
}

#[test]
fn read_into_a_larger_buffer_leaves_the_rest() {
    let data = [7u8, 8];
    let mut reader = SliceReader::new(&data);
    let mut buf = [9u8; 4];
    assert_eq!(reader.read(&mut buf).unwrap(), 2);
    assert_eq!(buf, [7, 8, 9, 9]);
}

#[test]
fn read_into_an_empty_buffer_reads_nothing() {
    let data = [1u8];
    let mut reader = SliceReader::new(&data);
    let mut buf = [0u8; 0];
    assert_eq!(reader.read(&mut buf).unwrap(), 0);
    let mut one = [0u8; 1];
    assert_eq!(reader.read(&mut one).unwrap(), 1);
    assert_eq!(one, [1]);
}

#[test]
fn read_of_empty_data() {
    let data: [u8; 0] = [];
    let mut reader = SliceReader::new(&data);
    let mut buf = [3u8; 3];
    assert_eq!(reader.read(&mut buf).unwrap(), 0);
    assert_eq!(buf, [3, 3, 3]);
}

#[test]
fn seek_from_start_is_brought_into_range() {
    let data = [0u8; 10];
    let mut reader = SliceReader::new(&data);
    assert_eq!(reader.seek(SeekFrom::Start(4)).unwrap(), 4);
    assert_eq!(reader.seek(SeekFrom::Start(10)).unwrap(), 10);
    assert_eq!(reader.seek(SeekFrom::Start(11)).unwrap(), 10);
    assert_eq!(reader.seek(SeekFrom::Start(u64::MAX)).unwrap(), 10);
    assert_eq!(reader.seek(SeekFrom::Start(0)).unwrap(), 0);
}

#[test]
fn seek_from_end_is_brought_into_range() {
    let data = [0u8; 10];
    let mut reader = SliceReader::new(&data);
    assert_eq!(reader.seek(SeekFrom::End(0)).unwrap(), 10);
    assert_eq!(reader.seek(SeekFrom::End(-3)).unwrap(), 7);
    assert_eq!(reader.seek(SeekFrom::End(-10)).unwrap(), 0);
    assert_eq!(reader.seek(SeekFrom::End(-11)).unwrap(), 0);
    assert_eq!(reader.seek(SeekFrom::End(5)).unwrap(), 10);
    assert_eq!(reader.seek(SeekFrom::End(i64::MIN)).unwrap(), 0);
    assert_eq!(reader.seek(SeekFrom::End(i64::MAX)).unwrap(), 10);
}

#[test]
fn seek_from_current_is_brought_into_range() {
    let data = [0u8; 10];
    let mut reader = SliceReader::new(&data);
    assert_eq!(reader.seek(SeekFrom::Current(3)).unwrap(), 3);
    assert_eq!(reader.seek(SeekFrom::Current(3)).unwrap(), 6);
    assert_eq!(reader.seek(SeekFrom::Current(-4)).unwrap(), 2);
    assert_eq!(reader.seek(SeekFrom::Current(-5)).unwrap(), 0);
    assert_eq!(reader.seek(SeekFrom::Current(100)).unwrap(), 10);
    assert_eq!(reader.seek(SeekFrom::Current(0)).unwrap(), 10);
    assert_eq!(reader.seek(SeekFrom::Current(i64::MIN)).unwrap(), 0);
    assert_eq!(reader.seek(SeekFrom::Current(i64::MAX)).unwrap(), 10);
}

#[test]
fn read_continues_where_seek_ended() {
    let data = [10u8, 11, 12, 13, 14, 15];
    let mut reader = SliceReader::new(&data);
    reader.seek(SeekFrom::Start(4)).unwrap();
    let mut buf = [0u8; 4];
    assert_eq!(reader.read(&mut buf).unwrap(), 2);
    assert_eq!(buf, [14, 15, 0, 0]);
    reader.seek(SeekFrom::End(-6)).unwrap();
    assert_eq!(reader.read(&mut buf).unwrap(), 4);
    assert_eq!(buf, [10, 11, 12, 13]);
    reader.seek(SeekFrom::Current(-1)).unwrap();
    let mut rest = Vec::new();
    reader.read_to_end(&mut rest).unwrap();
    assert_eq!(rest, vec![13, 14, 15]);
}
