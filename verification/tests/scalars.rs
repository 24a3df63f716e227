use image_interop::scalar_bytes::ScalarFromBytes;

#[test]
fn scalar_sizes() {
    assert_eq!(<u8 as ScalarFromBytes>::size(), 1);
    assert_eq!(<u16 as ScalarFromBytes>::size(), 2);
    assert_eq!(<u32 as ScalarFromBytes>::size(), 4);
    assert_eq!(<u64 as ScalarFromBytes>::size(), 8);
}

#[test]
fn scalars_decode_in_one_of_the_two_byte_orders() {
    assert_eq!(<u8 as ScalarFromBytes>::from_ne_bytes(&[200]), 200);
    let v16 = <u16 as ScalarFromBytes>::from_ne_bytes(&[0x12, 0x34]);
    assert!(v16 == 0x3412 || v16 == 0x1234);
    let v32 = <u32 as ScalarFromBytes>::from_ne_bytes(&[1, 2, 3, 4]);
    assert!(v32 == 0x0403_0201 || v32 == 0x0102_0304);
    assert_eq!(v32, u32::from_ne_bytes([1, 2, 3, 4]));
    let v64 = <u64 as ScalarFromBytes>::from_ne_bytes(&[1, 0, 0, 0, 0, 0, 0, 2]);
    assert!(v64 == 0x0200_0000_0000_0001 || v64 == 0x0100_0000_0000_0002);
}
