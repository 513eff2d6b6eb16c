//! Encoding of wifi credentials into the textual payload that QR-code
//! scanning apps recognize as a wifi-join directive, together with helpers
//! that hand the payload to a QR renderer.
//!
//! The payload grammar is
//! `WIFI:S:<escaped-ssid>;T:<auth-tag>;P:<escaped-password>;H:<true|false>;;`,
//! with the `P:` segment omitted for open networks. The five characters
//! `\ " ; , :` carry meaning in that grammar and are escaped with a leading
//! backslash wherever they occur in user-supplied text.

mod credentials;
mod escaping;
mod render;

pub use credentials::auth_segment;
pub use credentials::encoded_payload;
pub use credentials::lemma_encode_deterministic;
pub use credentials::lemma_password_segment_recovers;
pub use credentials::lemma_payload_starts_and_ends;
pub use credentials::lemma_ssid_segment_recovers;
pub use credentials::same_credentials;
pub use credentials::ssid_segment;
pub use credentials::visibility_segment;
pub use credentials::AuthenticationType;
pub use credentials::Visibility;
pub use credentials::WifiCredentials;
pub use escaping::escape;
pub use escaping::escape_char;
pub use escaping::escape_text;
pub use escaping::is_reserved_char;
pub use escaping::lemma_escape_text_concat;
pub use escaping::lemma_unescape_escape;
pub use escaping::unescape;
pub use escaping::unescape_text;
pub use render::ecc_level_index;
pub use render::encode_as_image;
pub use render::encode_as_matrix;
pub use render::qr_matrix_render;
pub use render::EccLevel;
pub use render::RenderError;
