use fortelion::utils::{bytes_to_i16, bytes_to_u16, cut_slice};
use fortelion::Error;

#[test]
fn test_cut_slice() {
    let bytes = &[0x01, 0x02, 0x03, 0x04, 0x05, 0x06, 0x07, 0x08, 0x09, 0x0a];
    assert_eq!(cut_slice(bytes, 0, 0).unwrap(), &[][..] as &[u8]);
    assert_eq!(cut_slice(bytes, 0, 1).unwrap(), &[0x01][..]);
    assert_eq!(cut_slice(bytes, 0, 2).unwrap(), &[0x01, 0x02][..]);
    assert_eq!(cut_slice(bytes, 3, 2).unwrap(), &[0x04, 0x05][..]);
    assert_eq!(
        cut_slice(bytes, 2, 6).unwrap(),
        &[0x03, 0x04, 0x05, 0x06, 0x07, 0x08][..]
    );
    assert_eq!(
        cut_slice(bytes, 0, 10).unwrap(),
        &[0x01, 0x02, 0x03, 0x04, 0x05, 0x06, 0x07, 0x08, 0x09, 0x0a][..]
    );
    assert_eq!(cut_slice(bytes, 8, 2).unwrap(), &[0x09, 0x0a][..]);
    assert_eq!(cut_slice(bytes, 9, 1).unwrap(), &[0x0a][..]);
    assert_eq!(cut_slice(bytes, 10, 0).unwrap(), &[][..] as &[u8]);
    assert!(cut_slice(bytes, 0, 11).is_err());
    assert!(cut_slice(bytes, 1, 10).is_err());
    assert!(cut_slice(bytes, 10, 1).is_err());
    assert!(cut_slice(bytes, 9, 2).is_err());
    assert!(cut_slice(bytes, 5, 6).is_err());
    assert!(cut_slice(bytes, 100, 2).is_err());
}

#[test]
fn test_bytes_to_u16() {
    assert_eq!(bytes_to_u16(&[0x00, 0x00]).unwrap(), 0);
    assert_eq!(bytes_to_u16(&[0x01, 0x01]).unwrap(), 257);
    assert_eq!(bytes_to_u16(&[0x00, 0x79]).unwrap(), 121);
    assert_eq!(bytes_to_u16(&[0x65, 0x00]).unwrap(), 25856);
    assert_eq!(bytes_to_u16(&[0x2b, 0x35]).unwrap(), 11061);
    assert_eq!(bytes_to_u16(&[0x13, 0xf8]).unwrap(), 5112);
    assert_eq!(bytes_to_u16(&[0x87, 0x16]).unwrap(), 34582);
    assert_eq!(bytes_to_u16(&[0xcb, 0x51]).unwrap(), 52049);
    assert_eq!(bytes_to_u16(&[0xa1, 0xb7]).unwrap(), 41399);
    assert_eq!(bytes_to_u16(&[0xff, 0xff]).unwrap(), 65535);
    assert!(bytes_to_u16(&[0xe2]).is_err());
}

#[test]
fn test_bytes_to_i16() {
    assert_eq!(bytes_to_i16(&[0x00, 0x00]).unwrap(), 0);
    assert_eq!(bytes_to_i16(&[0x01, 0x01]).unwrap(), 257);
    assert_eq!(bytes_to_i16(&[0x00, 0x79]).unwrap(), 121);
    assert_eq!(bytes_to_i16(&[0x65, 0x00]).unwrap(), 25856);
    assert_eq!(bytes_to_i16(&[0x2b, 0x35]).unwrap(), 11061);
    assert_eq!(bytes_to_i16(&[0x13, 0xf8]).unwrap(), 5112);
    assert_eq!(bytes_to_i16(&[0x87, 0x16]).unwrap(), -30954);
    assert_eq!(bytes_to_i16(&[0xcb, 0x51]).unwrap(), -13487);
    assert_eq!(bytes_to_i16(&[0xa1, 0xb7]).unwrap(), -24137);
    assert_eq!(bytes_to_i16(&[0xff, 0xff]).unwrap(), -1);
    assert!(bytes_to_u16(&[0xe2]).is_err());
}

#[test]
fn cut_slice_whose_end_overflows_is_a_shortage() {
    let bytes = &[0x01, 0x02, 0x03];
    assert!(matches!(
        cut_slice(bytes, usize::MAX, 2),
        Err(Error::DataBytesShortage(text)) if text == "Out of range"
    ));
    assert!(matches!(
        cut_slice(bytes, 2, usize::MAX),
        Err(Error::DataBytesShortage(text)) if text == "Out of range"
    ));
}

#[test]
fn decoding_names_the_type_that_came_short() {
    assert!(matches!(
        bytes_to_u16(&[]),
        Err(Error::DataBytesShortage(text)) if text == "Too short for u16"
    ));
    assert!(matches!(
        bytes_to_i16(&[0x7f]),
        Err(Error::DataBytesShortage(text)) if text == "Too short for i16"
    ));
}

#[test]
fn decoding_reads_the_leading_two_bytes() {
    assert_eq!(bytes_to_u16(&[0x12, 0x34, 0x56]).unwrap(), 0x1234);
    assert_eq!(bytes_to_i16(&[0x80, 0x00, 0xff]).unwrap(), i16::MIN);
    assert_eq!(bytes_to_i16(&[0x7f, 0xff]).unwrap(), i16::MAX);
}
