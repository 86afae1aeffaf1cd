//! The registry client: how it is configured, and how it is opened.

use oci_client::errors::OciDistributionError;
use oci_client::Client;
use vstd::prelude::*;
use vstd::utf8::encode_utf8;

use crate::text::optional_str;
use crate::text::optional_string;
use crate::text::owned_text;

verus! {

/// The client of `oci_client`, which talks with a registry.
#[verifier::external_type_specification]
#[verifier::external_body]
pub struct ExClient(oci_client::Client);

/// The error of `oci_client`.
#[verifier::external_type_specification]
#[verifier::external_body]
pub struct ExOciDistributionError(oci_client::errors::OciDistributionError);

/// How the bytes of a certificate are to be read.
#[derive(Debug, Clone, Copy, PartialEq, Eq)]
pub enum CertificateEncoding {
    Der,
    Pem,
}

/// A root certificate.
#[derive(Debug, PartialEq, Eq)]
pub struct Certificate {
    pub encoding: CertificateEncoding,
    pub data: Vec<u8>,
}

/// Where the configuration of a registry client departs from the default.
#[derive(Debug, PartialEq, Eq)]
pub struct ClientSettings {
    /// The hosts to be reached without the proxy.
    pub no_proxy: Option<String>,
    /// The proxy for HTTPS.
    pub https_proxy: Option<String>,
    /// The root certificates to be trusted besides the default ones.
    pub extra_root_certificates: Vec<Certificate>,
}

impl ClientSettings {
    /// These settings hold the two proxy settings and, one for one, the
    /// certificates, each as the bytes of its PEM text.
    pub open spec fn hold(
        self,
        no_proxy: Option<&str>,
        https_proxy: Option<&str>,
        extra_root_certificates: Seq<String>,
    ) -> bool {
        &&& optional_string(self.no_proxy) == optional_str(no_proxy)
        &&& optional_string(self.https_proxy) == optional_str(https_proxy)
        &&& self.extra_root_certificates@.len() == extra_root_certificates.len()
        &&& forall|i: int|
            0 <= i < extra_root_certificates.len() ==> {
                &&& (#[trigger] self.extra_root_certificates@[i]).encoding
                    == CertificateEncoding::Pem
                &&& self.extra_root_certificates@[i].data@ == encode_utf8(
                    extra_root_certificates[i]@,
                )
            }
    }

    /// The settings for a registry client with these proxies that trusts these
    /// certificates, which are PEM texts.
    pub fn new(
        no_proxy: Option<&str>,
        https_proxy: Option<&str>,
        extra_root_certificates: Vec<String>,
    ) -> (settings: ClientSettings)
        ensures
            settings.hold(no_proxy, https_proxy, extra_root_certificates@),
    {
        let mut certificates: Vec<Certificate> = Vec::new();
        let mut next: usize = 0;
        while next < extra_root_certificates.len()
            invariant
                next <= extra_root_certificates@.len(),
                certificates@.len() == next,
                forall|i: int|
                    0 <= i < next ==> {
                        &&& (#[trigger] certificates@[i]).encoding == CertificateEncoding::Pem
                        &&& certificates@[i].data@ == encode_utf8(extra_root_certificates@[i]@)
                    },
            decreases extra_root_certificates@.len() - next,
        {
            let data = extra_root_certificates[next].as_str().as_bytes_vec();
            certificates.push(Certificate { encoding: CertificateEncoding::Pem, data });
            next = next + 1;
        }
        ClientSettings {
            no_proxy: owned_text(&no_proxy),
            https_proxy: owned_text(&https_proxy),
            extra_root_certificates: certificates,
        }
    }
}

/// A registry client, together with the settings that it was opened with.
pub struct RegistryClient {
    inner: Client,
    settings: ClientSettings,
}

impl RegistryClient {
    /// Opening a client of `oci_client` with these settings can end with this
    /// outcome.
    pub closed spec fn opens(
        settings: ClientSettings,
        outcome: Result<Client, OciDistributionError>,
    ) -> bool {
        call_ensures(open_client, (&settings,), outcome)
    }

    /// What comes of opening a client with these settings: the client that was
    /// opened with them, kept together with them, or the error with which
    /// opening it failed.
    pub open spec fn opened_by(
        settings: ClientSettings,
        opened: Result<RegistryClient, OciDistributionError>,
    ) -> bool {
        match opened {
            Ok(registry) => {
                &&& registry.opened_with() == settings
                &&& Self::opens(settings, Ok(registry.opened_client()))
            },
            Err(error) => Self::opens(settings, Err(error)),
        }
    }

    /// The client was opened with the settings that are kept beside it.
    #[verifier::type_invariant]
    closed spec fn kept_together(self) -> bool {
        Self::opens(self.settings, Ok(self.inner))
    }

    /// The client of `oci_client`.
    pub closed spec fn opened_client(self) -> Client {
        self.inner
    }

    /// The settings that the client was opened with.
    pub closed spec fn opened_with(self) -> ClientSettings {
        self.settings
    }

    /// Opens a client with these settings.
    pub fn open(settings: ClientSettings) -> (opened: Result<RegistryClient, OciDistributionError>)
        ensures
            Self::opened_by(settings, opened),
    {
        let outcome = open_client(&settings);
        proof {
            lemma_opens_is_the_outside_call(settings, outcome);
        }
        match outcome {
            Ok(inner) => Ok(RegistryClient { inner, settings }),
            Err(error) => Err(error),
        }
    }

    /// The client of `oci_client`, which was opened with the settings.
    pub fn client(&self) -> (client: &Client)
        ensures
            *client == self.opened_client(),
            Self::opens(self.opened_with(), Ok(*client)),
    {
        proof {
            use_type_invariant(self);
        }
        &self.inner
    }

    /// The settings that the client was opened with.
    pub fn settings(&self) -> (settings: &ClientSettings)
        ensures
            *settings == self.opened_with(),
    {
        &self.settings
    }
}

/// That opening can end with an outcome is said of the outside call, made with
/// those settings, and of nothing else.
proof fn lemma_opens_is_the_outside_call(
    settings: ClientSettings,
    outcome: Result<Client, OciDistributionError>,
)
    ensures
        RegistryClient::opens(settings, outcome) <==> call_ensures(
            open_client,
            (&settings,),
            outcome,
        ),
{
}

/// Opens a client by `TryFrom<ClientConfig>` of `oci_client::Client`, with the
/// default configuration but for the settings: the two proxies as they are,
/// and each certificate, in order, with its bytes and its encoding, `Der` as
/// `Der` and `Pem` as `Pem`. Nothing is claimed of the outcome: whether a
/// client comes back rests on the process too (the TLS provider that may be
/// installed process-wide), and a client that comes back may use proxies that
/// the environment names.
#[verifier::external_body]
fn open_client(settings: &ClientSettings) -> (outcome: Result<Client, OciDistributionError>) {
    let mut config = oci_client::client::ClientConfig::default();
    config.no_proxy = settings.no_proxy.clone();
    config.https_proxy = settings.https_proxy.clone();
    for certificate in &settings.extra_root_certificates {
        let encoding = match certificate.encoding {
            CertificateEncoding::Der => oci_client::client::CertificateEncoding::Der,
            CertificateEncoding::Pem => oci_client::client::CertificateEncoding::Pem,
        };
        let data = certificate.data.clone();
        config.extra_root_certificates.push(oci_client::client::Certificate { encoding, data });
    }
    Client::try_from(config)
}

} // verus!
