use rustls_rustcrypto::scheme::{KeyFormat, PrivateKeyEncoding, SignatureScheme};
use rustls_rustcrypto::sign::{SigningKeyHandle, any_supported_type};

fn rsa_handle() -> SigningKeyHandle {
    any_supported_type(
        &PrivateKeyEncoding { format: KeyFormat::Pkcs1, bytes: rsa_key_der() },
    ).unwrap()
}

fn ed25519_handle() -> SigningKeyHandle {
    any_supported_type(
        &PrivateKeyEncoding { format: KeyFormat::Pkcs8, bytes: ed25519_key_der() },
    ).unwrap()
}

#[test]
fn choose_honors_offered_order_over_handle_order() {
    let handle = rsa_handle();
    let offered = [SignatureScheme::EcdsaNistp256Sha256, SignatureScheme::RsaPkcs1Sha256];
    let signer = handle.choose_signer(&offered).unwrap();
    assert_eq!(signer.scheme(), SignatureScheme::RsaPkcs1Sha256);
}

#[test]
fn choose_takes_first_supported_of_two() {
    let handle = rsa_handle();
    // the handle's own order lists PSS before PKCS#1; the caller's order wins
    let offered = [SignatureScheme::RsaPkcs1Sha256, SignatureScheme::RsaPssSha512];
    let signer = handle.choose_signer(&offered).unwrap();
    assert_eq!(signer.scheme(), SignatureScheme::RsaPkcs1Sha256);
    let offered = [SignatureScheme::RsaPssSha512, SignatureScheme::RsaPkcs1Sha256];
    let signer = handle.choose_signer(&offered).unwrap();
    assert_eq!(signer.scheme(), SignatureScheme::RsaPssSha512);
}

#[test]
fn choose_none_when_disjoint() {
    let handle = rsa_handle();
    let offered = [SignatureScheme::Ed25519, SignatureScheme::EcdsaNistp256Sha256];
    assert!(handle.choose_signer(&offered).is_none());
}

#[test]
fn choose_none_when_nothing_offered() {
    let handle = rsa_handle();
    assert!(handle.choose_signer(&[]).is_none());
}

#[test]
fn choose_ed25519() {
    let handle = ed25519_handle();
    let offered = [SignatureScheme::RsaPkcs1Sha256, SignatureScheme::Ed25519];
    let signer = handle.choose_signer(&offered).unwrap();
    assert_eq!(signer.scheme(), SignatureScheme::Ed25519);
    assert!(handle.choose_signer(&[SignatureScheme::RsaPssSha256]).is_none());
}

#[test]
fn chosen_scheme_is_member_of_supported_set() {
    let handle = rsa_handle();
    let supported = handle.supported_schemes();
    for offered in [
        [SignatureScheme::RsaPssSha384, SignatureScheme::Ed25519],
        [SignatureScheme::Ed25519, SignatureScheme::RsaPkcs1Sha512],
    ] {
        let signer = handle.choose_signer(&offered).unwrap();
        assert!(supported.contains(&signer.scheme()));
    }
}

#[test]
fn cloned_handle_behaves_identically() {
    let handle = rsa_handle();
    let shared = handle.clone();
    assert_eq!(handle.supported_schemes(), shared.supported_schemes());
    let offered = [SignatureScheme::RsaPkcs1Sha256];
    assert_eq!(
        handle.choose_signer(&offered).unwrap().scheme(),
        shared.choose_signer(&offered).unwrap().scheme(),
    );
}

#[test]
fn wire_codes_match_fixed_numbering() {
    assert_eq!(SignatureScheme::RsaPkcs1Sha256.wire_code(), 0x0401);
    assert_eq!(SignatureScheme::RsaPkcs1Sha384.wire_code(), 0x0501);
    assert_eq!(SignatureScheme::RsaPkcs1Sha512.wire_code(), 0x0601);
    assert_eq!(SignatureScheme::RsaPssSha256.wire_code(), 0x0804);
    assert_eq!(SignatureScheme::RsaPssSha384.wire_code(), 0x0805);
    assert_eq!(SignatureScheme::RsaPssSha512.wire_code(), 0x0806);
    assert_eq!(SignatureScheme::EcdsaNistp256Sha256.wire_code(), 0x0403);
    assert_eq!(SignatureScheme::EcdsaNistp384Sha384.wire_code(), 0x0503);
    assert_eq!(SignatureScheme::Ed25519.wire_code(), 0x0807);
}

fn rsa_key_der() -> Vec<u8> {
    vec![
        48, 130, 4, 162, 2, 1, 0, 2, 130, 1, 1, 0, 209, 96, 110, 177, 228, 2, 85, 148, 4, 61,
        163, 187, 40, 234, 186, 197, 73, 223, 63, 107, 160, 184, 143, 0, 66, 127, 170, 216, 126,
        84, 136, 175, 132, 251, 142, 241, 72, 31, 150, 244, 104, 251, 189, 80, 38, 52, 31, 236,
        214, 116, 45, 21, 151, 94, 96, 194, 185, 243, 6, 129, 191, 219, 233, 79, 28, 228, 99,
        135, 231, 238, 175, 19, 165, 92, 112, 238, 254, 216, 170, 113, 186, 11, 78, 28, 138,
        169, 71, 145, 51, 104, 144, 210, 38, 145, 29, 230, 202, 172, 153, 194, 28, 39, 143, 26,
        114, 183, 58, 190, 211, 109, 207, 38, 89, 234, 222, 124, 158, 153, 177, 132, 221, 60,
        129, 192, 174, 32, 109, 238, 8, 192, 178, 79, 65, 118, 133, 142, 47, 127, 57, 59, 3, 2,
        53, 115, 109, 119, 101, 177, 165, 233, 83, 67, 1, 144, 149, 55, 172, 231, 222, 57, 78,
        103, 117, 84, 95, 205, 35, 29, 250, 178, 135, 89, 247, 44, 58, 251, 165, 31, 43, 232,
        31, 183, 251, 45, 179, 167, 125, 224, 116, 55, 129, 24, 162, 13, 89, 235, 157, 108, 16,
        103, 196, 17, 82, 128, 207, 58, 220, 25, 124, 132, 53, 136, 110, 110, 243, 221, 74, 92,
        135, 203, 255, 226, 14, 192, 137, 170, 51, 124, 225, 125, 207, 154, 208, 13, 246, 193,
        193, 33, 1, 75, 115, 207, 7, 145, 10, 180, 243, 24, 98, 194, 198, 156, 198, 43, 224, 9,
        2, 3, 1, 0, 1, 2, 130, 1, 0, 24, 2, 30, 233, 249, 94, 6, 125, 27, 88, 12, 19, 21, 34,
        134, 164, 109, 15, 147, 43, 73, 100, 122, 245, 73, 213, 111, 124, 53, 78, 219, 214, 48,
        129, 83, 71, 57, 214, 28, 35, 163, 121, 118, 74, 244, 163, 214, 120, 167, 5, 238, 248,
        215, 171, 99, 242, 0, 54, 44, 150, 170, 132, 39, 113, 23, 17, 136, 147, 130, 192, 167,
        154, 91, 153, 158, 211, 134, 45, 28, 87, 149, 21, 224, 112, 231, 186, 35, 28, 52, 102,
        97, 155, 121, 254, 80, 55, 155, 118, 219, 135, 90, 179, 115, 54, 124, 255, 248, 170,
        253, 83, 34, 154, 139, 5, 247, 174, 194, 42, 237, 36, 71, 58, 189, 197, 117, 39, 85, 35,
        109, 228, 211, 187, 153, 143, 149, 90, 121, 41, 61, 36, 251, 119, 116, 181, 88, 161, 94,
        103, 111, 252, 147, 106, 99, 164, 172, 137, 26, 186, 24, 128, 92, 92, 124, 55, 55, 179,
        16, 142, 166, 228, 164, 73, 138, 41, 218, 68, 226, 220, 15, 131, 85, 109, 97, 197, 232,
        84, 103, 127, 181, 143, 173, 143, 34, 175, 214, 82, 248, 92, 210, 243, 70, 34, 50, 151,
        154, 113, 9, 180, 92, 216, 249, 50, 220, 172, 222, 247, 126, 0, 196, 207, 139, 55, 121,
        186, 215, 99, 103, 180, 206, 155, 182, 165, 92, 199, 202, 252, 134, 74, 200, 137, 130,
        198, 37, 117, 185, 185, 174, 44, 80, 52, 59, 17, 4, 100, 5, 47, 2, 129, 129, 0, 249,
        250, 229, 163, 202, 231, 189, 42, 208, 134, 117, 246, 14, 75, 241, 226, 18, 230, 169,
        101, 219, 186, 241, 54, 115, 165, 52, 214, 148, 237, 72, 170, 211, 179, 38, 175, 74,
        245, 152, 210, 101, 0, 143, 55, 234, 48, 111, 51, 188, 249, 133, 231, 212, 10, 249, 28,
        207, 228, 47, 12, 206, 8, 62, 41, 142, 111, 185, 156, 101, 250, 187, 225, 137, 254, 241,
        81, 193, 161, 56, 128, 127, 171, 197, 125, 171, 253, 20, 19, 9, 135, 196, 204, 226, 254,
        150, 63, 118, 184, 57, 83, 81, 138, 109, 72, 219, 49, 186, 154, 0, 240, 194, 220, 172,
        188, 203, 98, 10, 118, 187, 89, 89, 221, 171, 185, 80, 65, 119, 7, 2, 129, 129, 0, 214,
        107, 56, 47, 54, 237, 122, 74, 63, 49, 59, 213, 37, 204, 37, 53, 221, 32, 143, 146, 245,
        16, 104, 133, 211, 194, 24, 3, 129, 106, 226, 222, 232, 117, 111, 148, 104, 181, 90, 26,
        0, 225, 32, 160, 37, 197, 45, 225, 249, 104, 177, 208, 117, 42, 158, 149, 97, 75, 245,
        63, 23, 85, 54, 103, 106, 231, 173, 247, 16, 134, 15, 92, 133, 133, 239, 93, 103, 134,
        23, 113, 57, 170, 25, 200, 1, 132, 3, 224, 81, 82, 77, 21, 103, 3, 242, 225, 139, 118,
        81, 250, 39, 140, 153, 49, 48, 2, 178, 157, 80, 113, 13, 243, 216, 127, 13, 3, 37, 101,
        42, 14, 191, 98, 129, 3, 247, 119, 156, 111, 2, 129, 128, 91, 129, 130, 74, 64, 222, 47,
        154, 218, 150, 61, 220, 2, 67, 190, 153, 88, 253, 226, 136, 140, 180, 147, 211, 176,
        229, 138, 191, 249, 232, 26, 47, 158, 42, 248, 64, 54, 154, 76, 132, 199, 192, 58, 172,
        231, 39, 47, 173, 170, 193, 84, 73, 22, 143, 165, 188, 236, 68, 197, 12, 84, 231, 35,
        138, 38, 191, 179, 28, 19, 32, 131, 97, 254, 23, 186, 210, 136, 164, 177, 128, 40, 60,
        2, 161, 12, 50, 42, 5, 5, 250, 19, 10, 69, 21, 152, 126, 70, 193, 13, 10, 248, 208, 73,
        76, 224, 32, 6, 4, 149, 207, 140, 37, 39, 126, 60, 156, 248, 227, 153, 149, 13, 150, 93,
        100, 10, 130, 204, 69, 2, 129, 128, 75, 102, 108, 221, 125, 141, 73, 1, 174, 243, 27,
        61, 59, 11, 108, 210, 98, 46, 63, 14, 200, 138, 186, 150, 196, 254, 109, 255, 93, 149,
        62, 174, 112, 68, 75, 182, 126, 147, 183, 89, 137, 145, 161, 45, 111, 218, 196, 229,
        192, 20, 230, 226, 141, 49, 45, 143, 14, 37, 237, 217, 255, 212, 129, 75, 32, 182, 211,
        224, 27, 185, 104, 209, 122, 74, 188, 255, 181, 149, 219, 204, 127, 32, 167, 236, 67,
        76, 47, 40, 196, 176, 18, 87, 66, 96, 139, 26, 113, 54, 108, 97, 113, 98, 233, 195, 248,
        68, 26, 151, 99, 96, 62, 45, 207, 165, 237, 231, 123, 80, 245, 215, 53, 201, 231, 224,
        131, 55, 86, 149, 2, 129, 128, 120, 174, 227, 35, 62, 29, 170, 206, 227, 209, 204, 146,
        126, 179, 180, 219, 186, 243, 63, 45, 132, 44, 17, 253, 141, 208, 130, 18, 72, 78, 56,
        192, 188, 158, 212, 205, 144, 120, 227, 230, 178, 206, 108, 2, 101, 42, 145, 242, 219,
        85, 142, 204, 9, 7, 135, 41, 215, 143, 204, 175, 91, 0, 250, 143, 143, 137, 137, 197,
        184, 235, 170, 235, 212, 214, 166, 34, 253, 202, 82, 219, 208, 76, 187, 127, 113, 121,
        97, 157, 98, 4, 232, 201, 21, 232, 132, 167, 118, 125, 132, 18, 196, 190, 73, 39, 67,
        116, 176, 8, 33, 207, 93, 41, 63, 159, 158, 79, 71, 66, 48, 117, 140, 42, 20, 148, 192,
        196, 241, 254,
    ]
}

fn ed25519_key_der() -> Vec<u8> {
    vec![
        48, 46, 2, 1, 0, 48, 5, 6, 3, 43, 101, 112, 4, 34, 4, 32, 166, 192, 140, 131, 93, 255,
        228, 46, 14, 62, 167, 249, 136, 238, 84, 67, 249, 156, 67, 192, 85, 47, 89, 112, 113,
        181, 96, 2, 171, 220, 4, 22,
    ]
}
