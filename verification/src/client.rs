//! The client that pulls an image, and what it makes of the answers that it
//! gets.

use oci_client::errors::OciDistributionError;
use oci_client::secrets::RegistryAuth;
use oci_client::Reference;
use vstd::prelude::*;

use crate::error::PullError;
use crate::layer::LayerMeta;
use crate::order::in_number_order;
use crate::order::sort_layers;
use crate::registry::ClientSettings;
use crate::registry::RegistryClient;

verus! {

/// The reference to an image of `oci_client`.
#[verifier::external_type_specification]
#[verifier::external_body]
pub struct ExReference(oci_client::Reference);

/// The credentials of `oci_client` for a registry.
#[verifier::external_type_specification]
#[verifier::external_body]
pub struct ExRegistryAuth(oci_client::secrets::RegistryAuth);

/// The client that connects to a remote OCI registry and pulls a container
/// image. `S` is the layer store, under which the layers are unpacked.
pub struct PullClient<'a, S> {
    /// The client that talks with the remote OCI registry.
    pub client: RegistryClient,
    /// OCI registry auth info.
    pub auth: &'a RegistryAuth,
    /// OCI image reference.
    pub reference: Reference,
    /// The image layer store.
    pub layer_store: S,
    /// Max number of concurrent downloads.
    pub max_concurrent_download: usize,
}

impl<'a, S> PullClient<'a, S> {
    /// What comes of opening the registry client: a client for the image over
    /// it, or the error with which opening it failed.
    pub open spec fn over<E>(
        opened: Result<RegistryClient, E>,
        reference: Reference,
        layer_store: S,
        auth: &'a RegistryAuth,
        max_concurrent_download: usize,
    ) -> Result<PullClient<'a, S>, PullError<E>> {
        match opened {
            Ok(client) => Ok(
                PullClient { client, auth, reference, layer_store, max_concurrent_download },
            ),
            Err(error) => Err(PullError::Client(error)),
        }
    }

    /// A client for the image, with the proxies and the certificates that the
    /// registry client is to use. Whether it fails is decided by opening the
    /// registry client with them, and by nothing else; it then fails with the
    /// error of that.
    pub fn new(
        reference: Reference,
        layer_store: S,
        auth: &'a RegistryAuth,
        max_concurrent_download: usize,
        no_proxy: Option<&str>,
        https_proxy: Option<&str>,
        extra_root_certificates: Vec<String>,
    ) -> (created: Result<PullClient<'a, S>, PullError<OciDistributionError>>)
        ensures
            exists|settings: ClientSettings, opened: Result<RegistryClient, OciDistributionError>|
                {
                    &&& #[trigger] settings.hold(no_proxy, https_proxy, extra_root_certificates@)
                    &&& #[trigger] RegistryClient::opened_by(settings, opened)
                    &&& created == Self::over(
                        opened,
                        reference,
                        layer_store,
                        auth,
                        max_concurrent_download,
                    )
                },
            match created {
                Ok(puller) => {
                    &&& puller.client.opened_with().hold(
                        no_proxy,
                        https_proxy,
                        extra_root_certificates@,
                    )
                    &&& RegistryClient::opens(
                        puller.client.opened_with(),
                        Ok(puller.client.opened_client()),
                    )
                    &&& puller.auth == auth
                    &&& puller.reference == reference
                    &&& puller.layer_store == layer_store
                    &&& puller.max_concurrent_download == max_concurrent_download
                },
                Err(error) => error is Client,
            },
    {
        let settings = ClientSettings::new(no_proxy, https_proxy, extra_root_certificates);
        PullClient::with_client(
            RegistryClient::open(settings),
            reference,
            layer_store,
            auth,
            max_concurrent_download,
        )
    }

    /// A client for the image over a registry client that was opened before,
    /// or the error with which that failed.
    pub fn with_client<E>(
        opened: Result<RegistryClient, E>,
        reference: Reference,
        layer_store: S,
        auth: &'a RegistryAuth,
        max_concurrent_download: usize,
    ) -> (created: Result<PullClient<'a, S>, PullError<E>>)
        ensures
            created == Self::over(
                opened,
                reference,
                layer_store,
                auth,
                max_concurrent_download,
            ),
    {
        match opened {
            Ok(client) => Ok(
                PullClient { client, auth, reference, layer_store, max_concurrent_download },
            ),
            Err(error) => Err(PullError::Client(error)),
        }
    }

    /// The image manifest, its digest and the image configuration, from what
    /// the registry answered.
    pub fn pull_manifest<M, E>(&mut self, answer: Result<(M, String, String), E>) -> (pulled:
        Result<(M, String, String), PullError<E>>)
        ensures
            *final(self) == *old(self),
            pulled == match answer {
                Ok(manifest) => Ok::<(M, String, String), PullError<E>>(manifest),
                Err(error) => Err(PullError::Manifest(error)),
            },
    {
        match answer {
            Ok(manifest) => Ok(manifest),
            Err(error) => Err(PullError::Manifest(error)),
        }
    }

    /// The metadata of a nydus image's bootstrap layer, from the pull of that
    /// layer alone.
    pub fn pull_bootstrap<E>(&self, layer_metas: Result<Vec<LayerMeta>, PullError<E>>) -> (pulled:
        Result<LayerMeta, PullError<E>>)
        ensures
            pulled == match layer_metas {
                Ok(metas) => if metas@.len() > 0 {
                    Ok::<LayerMeta, PullError<E>>(metas@[0])
                } else {
                    Err(PullError::NoBootstrapLayer)
                },
                Err(error) => Err(error),
            },
    {
        match layer_metas {
            Ok(metas) => {
                if metas.len() > 0 {
                    Ok(metas[0].clone())
                } else {
                    Err(PullError::NoBootstrapLayer)
                }
            },
            Err(error) => Err(error),
        }
    }

    /// The metadata of an image's layers in manifest order, from the layers
    /// in the order in which they finished, each under its number in the
    /// manifest, or from the error that ended the pull.
    pub fn async_pull_layers<E>(
        &self,
        layer_metas: Result<Vec<(usize, LayerMeta)>, PullError<E>>,
    ) -> (pulled: Result<Vec<LayerMeta>, PullError<E>>)
        ensures
            match layer_metas {
                Ok(metas) => pulled matches Ok(sorted) && in_number_order(metas@, sorted@),
                Err(error) => pulled == Err::<Vec<LayerMeta>, PullError<E>>(error),
            },
    {
        match layer_metas {
            Ok(metas) => Ok(sort_layers(metas)),
            Err(error) => Err(error),
        }
    }
}

} // verus!
