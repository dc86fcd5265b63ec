const KEY_DER: [u8; 608] = [
    0x30, 0x82, 0x02, 0x5c, 0x02, 0x01, 0x00, 0x02, 0x81, 0x81, 0x00, 0xa8, 0x33, 0xab, 0x2e, 0x17,
    0xba, 0x50, 0xcb, 0x94, 0x7d, 0x07, 0x7d, 0xb1, 0xa7, 0x8a, 0x13, 0x2f, 0x46, 0xc6, 0x41, 0x82,
    0x55, 0x6a, 0x75, 0x7c, 0x51, 0x9f, 0x1b, 0x15, 0xbe, 0x2f, 0x32, 0x9c, 0xf0, 0x00, 0x25, 0x0f,
    0x6e, 0xce, 0x2f, 0xe4, 0x62, 0x7f, 0xa0, 0x07, 0x25, 0xf4, 0xaa, 0x1b, 0x95, 0xfd, 0x99, 0x79,
    0x2d, 0x91, 0xd1, 0x07, 0x94, 0xbf, 0xec, 0xf3, 0xfc, 0x97, 0x08, 0xb5, 0x69, 0xa9, 0xf8, 0x2c,
    0xc5, 0x34, 0x1e, 0x3b, 0x6f, 0xa0, 0x69, 0xa4, 0xe7, 0x69, 0xe4, 0x44, 0xa3, 0x77, 0x01, 0x7e,
    0xce, 0xa8, 0xd2, 0xb6, 0xee, 0xaa, 0x41, 0x0e, 0x94, 0xd4, 0xfc, 0x15, 0xcc, 0x16, 0xcb, 0xf0,
    0x7d, 0xf4, 0xa8, 0x26, 0x75, 0x55, 0x45, 0xa4, 0xd2, 0xcd, 0x6d, 0x57, 0x58, 0x09, 0x37, 0x77,
    0x20, 0x3e, 0x76, 0x3e, 0xa5, 0xef, 0xac, 0x89, 0xd3, 0x5e, 0x07, 0x02, 0x03, 0x01, 0x00, 0x01,
    0x02, 0x81, 0x80, 0x2f, 0xc6, 0x95, 0x4d, 0xbf, 0x51, 0x9d, 0x97, 0x65, 0xb2, 0xe9, 0xc8, 0xcb,
    0x08, 0x52, 0x90, 0xc6, 0x71, 0xec, 0xe8, 0x38, 0x93, 0xf8, 0x6c, 0x2c, 0x86, 0xa6, 0x91, 0xb3,
    0xe8, 0x54, 0x51, 0xa5, 0x00, 0x0a, 0x9a, 0x7c, 0x3a, 0xb5, 0xf8, 0x26, 0x7f, 0xcf, 0xce, 0x6d,
    0x99, 0x5b, 0x58, 0x62, 0x03, 0x85, 0x87, 0xed, 0x42, 0x83, 0x53, 0x83, 0x3a, 0xbe, 0x15, 0x18,
    0xec, 0x5b, 0x1d, 0x99, 0x25, 0x5e, 0x3f, 0xe0, 0x93, 0x5d, 0xeb, 0x6d, 0x2c, 0xd6, 0x2e, 0xd5,
    0x74, 0x47, 0xda, 0x11, 0x4e, 0x98, 0xdd, 0x46, 0x5d, 0x5c, 0x41, 0x13, 0xc5, 0xda, 0x1d, 0x0b,
    0x8a, 0x7c, 0x2c, 0x17, 0x05, 0x4f, 0x44, 0x43, 0x71, 0xc2, 0x99, 0xb5, 0xbe, 0x92, 0x1a, 0xe5,
    0xca, 0xb0, 0xca, 0x86, 0x9f, 0xd0, 0xa2, 0xa1, 0xb4, 0x0b, 0x86, 0xd5, 0xae, 0xc1, 0xee, 0x56,
    0xb0, 0xeb, 0x39, 0x02, 0x41, 0x00, 0xd8, 0x66, 0xc3, 0x18, 0x03, 0x34, 0x88, 0xe4, 0x76, 0x16,
    0x4b, 0x3f, 0xd8, 0x0a, 0x2e, 0xbf, 0x39, 0x07, 0x82, 0x14, 0x59, 0xd5, 0x87, 0x92, 0xff, 0x93,
    0xb4, 0x21, 0x48, 0xcd, 0x22, 0x48, 0xb5, 0x50, 0xd2, 0xcb, 0xe3, 0x95, 0xd8, 0x49, 0xfb, 0x4c,
    0xe6, 0xb5, 0x99, 0x9b, 0xae, 0x29, 0x30, 0x14, 0x9c, 0xce, 0xd3, 0xef, 0x84, 0xb8, 0x91, 0x72,
    0xa4, 0xb7, 0xe6, 0x16, 0x01, 0x75, 0x02, 0x41, 0x00, 0xc6, 0xfb, 0x04, 0x2d, 0xb3, 0x55, 0x32,
    0x66, 0x7e, 0x03, 0x0b, 0xa5, 0xd2, 0xed, 0x69, 0xd0, 0xbd, 0xc3, 0x02, 0xd4, 0xec, 0x63, 0x23,
    0x63, 0x63, 0xb3, 0x63, 0xfe, 0x38, 0xba, 0x8a, 0x7e, 0xa2, 0x4b, 0x75, 0x60, 0x83, 0x6c, 0x92,
    0xa5, 0x35, 0x5f, 0x40, 0x35, 0xf7, 0xa3, 0x3c, 0x2f, 0x37, 0x71, 0xf8, 0xbb, 0x48, 0xd0, 0x78,
    0x3d, 0x79, 0x6a, 0x24, 0x79, 0xa8, 0x54, 0x56, 0x0b, 0x02, 0x41, 0x00, 0xab, 0xc4, 0xc5, 0xce,
    0xe5, 0x9c, 0x69, 0x9c, 0x8e, 0x6f, 0x1b, 0xc3, 0xcd, 0x84, 0x27, 0x9e, 0xf9, 0x71, 0x90, 0x3a,
    0xff, 0x23, 0x92, 0xbd, 0x87, 0xc8, 0x82, 0x0e, 0x79, 0x6e, 0xfa, 0x6b, 0xa4, 0x20, 0x47, 0x72,
    0x37, 0x6f, 0xd5, 0x82, 0xc3, 0xca, 0x42, 0xc6, 0x9a, 0xeb, 0x0b, 0xce, 0xfd, 0xaf, 0x1e, 0xd8,
    0xbd, 0x39, 0x3d, 0xac, 0x13, 0x27, 0x60, 0xbf, 0xe8, 0x0e, 0x47, 0x91, 0x02, 0x40, 0x6e, 0x37,
    0xf1, 0x12, 0x97, 0x79, 0xa3, 0xd7, 0x5e, 0x09, 0xb5, 0xd3, 0xfe, 0xc8, 0x7f, 0x8a, 0x9e, 0xf2,
    0x7c, 0x89, 0x10, 0xff, 0xc1, 0x44, 0x76, 0x9f, 0x91, 0xcd, 0xea, 0x02, 0x7a, 0x60, 0xb6, 0xe9,
    0x71, 0x75, 0x2a, 0x97, 0x63, 0x8b, 0x9b, 0xca, 0xcd, 0x38, 0x97, 0x99, 0x95, 0xe6, 0xd9, 0xa1,
    0x8a, 0x13, 0xc3, 0xbb, 0xa6, 0x3e, 0xf7, 0x18, 0x32, 0x68, 0x29, 0x33, 0xbe, 0x0d, 0x02, 0x40,
    0x16, 0xee, 0xf6, 0x35, 0x69, 0x04, 0x75, 0x73, 0x67, 0x5e, 0xa3, 0x06, 0xeb, 0xd8, 0x8f, 0x88,
    0xaa, 0x0a, 0x9b, 0xea, 0xe6, 0x21, 0x66, 0xac, 0x41, 0x4b, 0x8a, 0x88, 0xee, 0x3f, 0xa5, 0xca,
    0xb2, 0x0c, 0x1c, 0xf2, 0x89, 0xd1, 0x0c, 0xaf, 0x4b, 0x9c, 0x79, 0xaa, 0x08, 0x3c, 0x83, 0xd3,
    0x2e, 0xc3, 0x96, 0xcd, 0x32, 0x97, 0x4a, 0x64, 0x7e, 0x07, 0xb9, 0xe6, 0xd0, 0x36, 0x4d, 0xb7,
];
const ENCRYPTED_SECRET: [u8; 128] = [
    0x41, 0x41, 0xf5, 0xa4, 0x73, 0xb3, 0x98, 0x52, 0xd0, 0xd7, 0x18, 0xf0, 0xd0, 0x00, 0xf8, 0x3e,
    0xca, 0x5c, 0xee, 0xb1, 0x81, 0x86, 0x27, 0x92, 0xdd, 0x1a, 0x24, 0xcd, 0xe4, 0xc2, 0xd7, 0x85,
    0x44, 0x53, 0xe6, 0x49, 0x6f, 0x36, 0x9c, 0x1d, 0xf2, 0x40, 0x44, 0x4a, 0x0b, 0x0b, 0x3e, 0x8d,
    0xe2, 0x0c, 0x35, 0xef, 0x13, 0xe5, 0xb9, 0x40, 0xf0, 0x9b, 0x01, 0x80, 0x77, 0xe9, 0xb6, 0xa4,
    0xb3, 0x0b, 0x50, 0x62, 0x8b, 0x87, 0x1f, 0xdf, 0x93, 0x5a, 0x31, 0x28, 0x16, 0xc6, 0xa2, 0x6e,
    0x2e, 0xfe, 0x30, 0x33, 0x70, 0x74, 0xe1, 0xc0, 0xa4, 0xf2, 0xe3, 0xb2, 0x20, 0xbd, 0xc2, 0xcf,
    0x3d, 0x8b, 0x12, 0xa3, 0x4f, 0x9b, 0x80, 0xc5, 0xcf, 0x4c, 0x39, 0xa1, 0x5d, 0x8f, 0x86, 0x4d,
    0xfc, 0x48, 0xc7, 0x2e, 0x8e, 0xf3, 0x0c, 0x10, 0x09, 0xa4, 0x38, 0x0a, 0x92, 0xfe, 0x4d, 0xe7,
];
const ENCRYPTED_VERIFY: [u8; 128] = [
    0xa5, 0xc2, 0xc8, 0xc8, 0xe8, 0x85, 0x71, 0xe5, 0x59, 0xdd, 0xd9, 0xe7, 0x36, 0x3e, 0xb8, 0xf9,
    0x45, 0x45, 0xc5, 0xf0, 0x59, 0xb6, 0x9d, 0x66, 0x03, 0x19, 0x9d, 0xd3, 0x3b, 0xf6, 0x8c, 0x8c,
    0xf4, 0xfe, 0xb2, 0x95, 0xdd, 0x15, 0x60, 0x3a, 0xed, 0x02, 0x4d, 0xe5, 0xdc, 0x79, 0x90, 0x0e,
    0x9c, 0x5d, 0xd0, 0x8e, 0x77, 0xd6, 0x49, 0x07, 0x70, 0xd5, 0xa2, 0x1a, 0x1e, 0xfd, 0x47, 0x32,
    0x08, 0x5e, 0x13, 0x32, 0xcb, 0xc1, 0x53, 0x9d, 0xe5, 0xce, 0x06, 0x67, 0x5e, 0x44, 0x11, 0x20,
    0xf3, 0xda, 0x67, 0x6d, 0x65, 0x87, 0x42, 0xda, 0xe3, 0x47, 0x97, 0x07, 0x46, 0x15, 0xa0, 0x3e,
    0x3d, 0x12, 0xb4, 0xab, 0x55, 0x1c, 0x9b, 0xf1, 0x62, 0xcb, 0x84, 0x86, 0xcd, 0x3b, 0xe5, 0x69,
    0x4f, 0x1a, 0x64, 0x55, 0xf5, 0x5d, 0x08, 0x0a, 0x57, 0xc1, 0xe6, 0x94, 0xac, 0x82, 0xfa, 0xce,
];

use nitrogen::incoming::{ClientError, ServerBoundLoginHandler};

fn handler_with_key() -> ServerBoundLoginHandler {
    let mut h = ServerBoundLoginHandler::new();
    h.record_encryption_request(KEY_DER.to_vec(), vec![9, 9], vec![1, 2, 3, 4], String::new());
    h
}

#[test]
fn encryption_response_decrypts_both_fields() {
    let h = handler_with_key();
    let (secret, verify) = h.decrypt_encryption_response(&ENCRYPTED_SECRET, &ENCRYPTED_VERIFY).unwrap();
    assert_eq!(secret, b"sixteen byte key".to_vec());
    assert_eq!(verify, vec![1, 2, 3, 4]);
}

#[test]
fn encryption_response_refuses_garbage() {
    let h = handler_with_key();
    let mut broken = ENCRYPTED_VERIFY;
    broken[0] ^= 0xff;
    assert_eq!(h.decrypt_encryption_response(&ENCRYPTED_SECRET, &broken), Err(ClientError::DecryptionFailed));
    assert_eq!(h.decrypt_encryption_response(&[1, 2, 3], &ENCRYPTED_VERIFY), Err(ClientError::DecryptionFailed));
}

#[test]
fn unparsable_key_refuses() {
    let mut h = ServerBoundLoginHandler::new();
    h.record_encryption_request(vec![0x30, 0x00], vec![], vec![], String::new());
    assert_eq!(h.decrypt_encryption_response(&ENCRYPTED_SECRET, &ENCRYPTED_VERIFY), Err(ClientError::DecryptionFailed));
}
