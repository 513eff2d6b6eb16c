use wifi_qr_code::AuthenticationType;
use wifi_qr_code::EccLevel;
use wifi_qr_code::RenderError;
use wifi_qr_code::Visibility;
use wifi_qr_code::WifiCredentials;
use wifi_qr_code::encode_as_image;
use wifi_qr_code::encode_as_matrix;

fn sample_credentials() -> WifiCredentials {
    WifiCredentials {
        ssid: String::from("example ssid"),
        authentication_type: AuthenticationType::WPA(String::from("example password")),
        visibility: Visibility::Hidden,
    }
}

#[test]
fn matrix_is_square_and_deterministic() {
    let matrix = encode_as_matrix(&sample_credentials(), EccLevel::Medium).unwrap();
    assert!(matrix.len() >= 21 && matrix.len() <= 177);
    for row in &matrix {
        assert_eq!(matrix.len(), row.len());
    }
    let again = encode_as_matrix(&sample_credentials(), EccLevel::Medium).unwrap();
    assert_eq!(matrix, again);
}

#[test]
fn matrix_depends_on_the_encoded_payload() {
    let matrix = encode_as_matrix(&sample_credentials(), EccLevel::Medium).unwrap();
    let other = WifiCredentials {
        ssid: String::from("other ssid"),
        authentication_type: AuthenticationType::NoPassword,
        visibility: Visibility::Visible,
    };
    let other_matrix = encode_as_matrix(&other, EccLevel::Medium).unwrap();
    assert_ne!(matrix, other_matrix);
}

#[test]
fn oversized_payload_reports_data_too_long() {
    let wifi_credentials = WifiCredentials {
        ssid: "x".repeat(3000),
        authentication_type: AuthenticationType::NoPassword,
        visibility: Visibility::Visible,
    };
    assert_eq!(
        Err(RenderError::DataTooLong),
        encode_as_matrix(&wifi_credentials, EccLevel::High)
    );
    assert_eq!(
        Err(RenderError::DataTooLong),
        encode_as_image(&wifi_credentials, EccLevel::High, 300)
    );
}

#[test]
fn image_has_one_byte_per_pixel() {
    let image = encode_as_image(&sample_credentials(), EccLevel::Low, 300).unwrap();
    assert_eq!(300 * 300, image.len());
    let again = encode_as_image(&sample_credentials(), EccLevel::Low, 300).unwrap();
    assert_eq!(image, again);
}

#[test]
fn tiny_image_size_reports_size_too_small() {
    assert_eq!(
        Err(RenderError::ImageSizeTooSmall),
        encode_as_image(&sample_credentials(), EccLevel::Low, 5)
    );
}

#[test]
fn huge_image_size_reports_size_too_large() {
    assert_eq!(
        Err(RenderError::ImageSizeTooLarge),
        encode_as_image(&sample_credentials(), EccLevel::Low, usize::MAX)
    );
}
