//! What the Kafka client is configured with, worked out from the settings
//! before any connection is opened.

use crate::lang::Sensitive;
use crate::streaming::kafka_config::KafkaConfig;
use vstd::prelude::*;
use vstd::utf8::{decode_utf8, valid_utf8};

verus! {

/// `base64::DecodeError`: why a text is not base64. Nothing is read of it.
#[verifier::external_type_specification]
#[verifier::external_body]
pub struct ExDecodeError(base64::DecodeError);

/// `core::str::Utf8Error`: why bytes are not UTF-8. Nothing is read of it.
#[verifier::external_type_specification]
#[verifier::external_body]
pub struct ExUtf8Error(core::str::Utf8Error);

/// The bytes that a text stands for in base64 with the standard alphabet and
/// padding, as the `base64` crate decodes it; `None` where it rejects the text.
pub uninterp spec fn base64_standard(encoded: Seq<char>) -> Option<Seq<u8>>;

/// `base64::Engine::decode` on `base64::engine::general_purpose::STANDARD`.
/// The contract claims only that the outcome is determined by the text.
#[verifier::external_body]
fn base64_decode(encoded: &str) -> (decoded: Result<Vec<u8>, base64::DecodeError>)
    ensures
        match decoded {
            Ok(bytes) => base64_standard(encoded@) == Some(bytes@),
            Err(_) => base64_standard(encoded@) is None,
        },
{
    base64::Engine::decode(&base64::engine::general_purpose::STANDARD, encoded)
}

/// `core::str::from_utf8`: the text that the bytes encode in UTF-8, an error
/// exactly where they are not valid UTF-8.
#[verifier::external_body]
fn utf8_text(bytes: &[u8]) -> (text: Result<&str, core::str::Utf8Error>)
    ensures
        match text {
            Ok(t) => valid_utf8(bytes@) && t@ == decode_utf8(bytes@),
            Err(_) => !valid_utf8(bytes@),
        },
{
    core::str::from_utf8(bytes)
}

/// Why a PEM text could not be read from its base64 form.
#[derive(Debug, Clone, Copy, PartialEq, Eq, Structural)]
pub enum PemError {
    /// The text is not base64.
    InvalidBase64,
    /// The decoded bytes are not UTF-8.
    InvalidUtf8,
}

/// What reading a PEM text from its base64 form yields.
pub open spec fn pem_text(encoded: Seq<char>) -> Result<Seq<char>, PemError> {
    match base64_standard(encoded) {
        Some(bytes) => pem_text_of_bytes(bytes),
        None => Err(PemError::InvalidBase64),
    }
}

/// What reading a PEM text from its bytes yields: the text they encode in
/// UTF-8, an error where they encode none.
pub open spec fn pem_text_of_bytes(bytes: Seq<u8>) -> Result<Seq<char>, PemError> {
    if valid_utf8(bytes) {
        Ok(decode_utf8(bytes))
    } else {
        Err(PemError::InvalidUtf8)
    }
}

/// A PEM text or the reason there is none, as a mathematical value.
pub open spec fn pem_view(pem: Result<Sensitive<String>, PemError>) -> Result<Seq<char>, PemError> {
    match pem {
        Ok(text) => Ok(text@@),
        Err(error) => Err(error),
    }
}

/// Reads a PEM text from the bytes that its base64 form stood for.
pub fn pem_string_from_bytes(bytes: Vec<u8>) -> (pem: Result<Sensitive<String>, PemError>)
    ensures
        pem_view(pem) == pem_text_of_bytes(bytes@),
        pem is Ok <==> valid_utf8(bytes@),
{
    match utf8_text(bytes.as_slice()) {
        Ok(text) => Ok(Sensitive::new(text.to_owned())),
        Err(_) => Err(PemError::InvalidUtf8),
    }
}

/// Reads a PEM text from its base64 form.
pub fn pem_string_from_base64(base64: &Sensitive<String>) -> (pem: Result<Sensitive<String>, PemError>)
    ensures
        pem_view(pem) == pem_text(base64@@),
{
    match base64_decode(base64.get().as_str()) {
        Ok(bytes) => pem_string_from_bytes(bytes),
        Err(_) => Err(PemError::InvalidBase64),
    }
}

/// One setting of the client: its name and its value.
pub struct ClientSetting {
    pub name: String,
    pub value: String,
}

impl View for ClientSetting {
    type V = (Seq<char>, Seq<char>);

    open spec fn view(&self) -> (Seq<char>, Seq<char>) {
        (self.name@, self.value@)
    }
}

/// The settings as name and value, in order.
pub open spec fn settings_view(settings: Seq<ClientSetting>) -> Seq<(Seq<char>, Seq<char>)> {
    settings.map_values(|setting: ClientSetting| setting@)
}

/// A sensitive text that may be absent, as a mathematical value.
pub open spec fn optional_secret(text: Option<Sensitive<String>>) -> Option<Seq<char>> {
    match text {
        Some(t) => Some(t@@),
        None => None,
    }
}

/// What the client is configured with for a broker at `url`. Where key,
/// certificate and certificate authority are all given, TLS is switched on
/// with the three PEM texts; the first of them that cannot be read, in this
/// order, is the error. Where any of the three is missing, the broker address
/// is the only setting.
pub open spec fn client_settings_of(
    url: Seq<char>,
    key: Option<Seq<char>>,
    certificate: Option<Seq<char>>,
    authority: Option<Seq<char>>,
) -> Result<Seq<(Seq<char>, Seq<char>)>, PemError> {
    if key is Some && certificate is Some && authority is Some {
        match pem_text(key.unwrap()) {
            Err(error) => Err(error),
            Ok(key_pem) => match pem_text(certificate.unwrap()) {
                Err(error) => Err(error),
                Ok(certificate_pem) => match pem_text(authority.unwrap()) {
                    Err(error) => Err(error),
                    Ok(authority_pem) => Ok(
                        seq![
                            ("bootstrap.servers"@, url),
                            ("security.protocol"@, "ssl"@),
                            ("ssl.key.pem"@, key_pem),
                            ("ssl.certificate.pem"@, certificate_pem),
                            ("ssl.ca.pem"@, authority_pem),
                        ],
                    ),
                },
            },
        }
    } else {
        Ok(seq![("bootstrap.servers"@, url)])
    }
}

impl KafkaConfig {
    /// Works out what the client is configured with.
    pub fn client_settings(&self) -> (settings: Result<Vec<ClientSetting>, PemError>)
        ensures
            match settings {
                Ok(list) => client_settings_of(
                    self.kafka_url@,
                    optional_secret(self.kafka_key),
                    optional_secret(self.kafka_cert),
                    optional_secret(self.kafka_ca),
                ) == Ok::<Seq<(Seq<char>, Seq<char>)>, PemError>(settings_view(list@)),
                Err(error) => client_settings_of(
                    self.kafka_url@,
                    optional_secret(self.kafka_key),
                    optional_secret(self.kafka_cert),
                    optional_secret(self.kafka_ca),
                ) == Err::<Seq<(Seq<char>, Seq<char>)>, PemError>(error),
            },
    {
        let mut list: Vec<ClientSetting> = Vec::new();
        list.push(
            ClientSetting { name: "bootstrap.servers".to_owned(), value: self.kafka_url.clone() },
        );
        match (&self.kafka_key, &self.kafka_cert, &self.kafka_ca) {
            (Some(key), Some(certificate), Some(authority)) => {
                let key_pem = match pem_string_from_base64(key) {
                    Ok(pem) => pem,
                    Err(error) => {
                        return Err(error);
                    },
                };
                let certificate_pem = match pem_string_from_base64(certificate) {
                    Ok(pem) => pem,
                    Err(error) => {
                        return Err(error);
                    },
                };
                let authority_pem = match pem_string_from_base64(authority) {
                    Ok(pem) => pem,
                    Err(error) => {
                        return Err(error);
                    },
                };
                list.push(
                    ClientSetting { name: "security.protocol".to_owned(), value: "ssl".to_owned() },
                );
                list.push(
                    ClientSetting { name: "ssl.key.pem".to_owned(), value: key_pem.get().clone() },
                );
                list.push(
                    ClientSetting {
                        name: "ssl.certificate.pem".to_owned(),
                        value: certificate_pem.get().clone(),
                    },
                );
                list.push(
                    ClientSetting { name: "ssl.ca.pem".to_owned(), value: authority_pem.get().clone() },
                );
                assert(settings_view(list@) =~= seq![
                    ("bootstrap.servers"@, self.kafka_url@),
                    ("security.protocol"@, "ssl"@),
                    ("ssl.key.pem"@, key_pem@@),
                    ("ssl.certificate.pem"@, certificate_pem@@),
                    ("ssl.ca.pem"@, authority_pem@@),
                ]);
            },
            _ => {
                assert(settings_view(list@) =~= seq![("bootstrap.servers"@, self.kafka_url@)]);
            },
        }
        Ok(list)
    }
}

} // verus!
