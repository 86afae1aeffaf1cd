//! What the operations on a whole pull give their caller, and what the
//! messages of the errors say.
//!
//! Each law here speaks of calls: `call_ensures(f, arguments, result)` says
//! that `f`, called with the arguments, can return the result.

use oci_client::errors::OciDistributionError;
use oci_client::secrets::RegistryAuth;
use oci_client::Reference;
use vstd::prelude::*;
use vstd::utf8::encode_utf8;

use crate::client::PullClient;
use crate::error::debug_text;
use crate::error::LayerError;
use crate::error::PullError;
use crate::laws::each_layer_once;
use crate::laws::law_last_pull_counts;
use crate::laws::law_manifest_order;
use crate::laws::law_order_is_unique;
use crate::laws::lemma_numbers_occur;
use crate::laws::occurs;
use crate::layer::LayerMeta;
use crate::order::by_number;
use crate::order::lists_rising;
use crate::order::picked;
use crate::order::sort_layers;
use crate::registry::CertificateEncoding;
use crate::registry::ClientSettings;
use crate::registry::RegistryClient;
use crate::text::owned_text;

verus! {

/// An optional text that is copied is there if and only if it was there, with
/// the same characters.
pub proof fn law_optional_text_is_copied(text: Option<&str>, owned: Option<String>)
    requires
        call_ensures(owned_text, (&text,), owned),
    ensures
        owned is Some <==> text is Some,
        text matches Some(s) ==> owned->0@ == s@,
{
}

/// The settings have each proxy if and only if it was given, with the same
/// characters, and one certificate for each text, in order, as PEM and with the
/// bytes of the text.
pub proof fn law_settings_are_as_given(
    no_proxy: Option<&str>,
    https_proxy: Option<&str>,
    extra_root_certificates: Vec<String>,
    settings: ClientSettings,
)
    requires
        call_ensures(
            ClientSettings::new,
            (no_proxy, https_proxy, extra_root_certificates),
            settings,
        ),
    ensures
        settings.no_proxy is Some <==> no_proxy is Some,
        no_proxy matches Some(s) ==> settings.no_proxy->0@ == s@,
        settings.https_proxy is Some <==> https_proxy is Some,
        https_proxy matches Some(s) ==> settings.https_proxy->0@ == s@,
        settings.extra_root_certificates@.len() == extra_root_certificates@.len(),
        forall|i: int|
            #![trigger settings.extra_root_certificates@[i]]
            0 <= i < extra_root_certificates@.len() ==> {
                &&& settings.extra_root_certificates@[i].encoding == CertificateEncoding::Pem
                &&& settings.extra_root_certificates@[i].data@ == encode_utf8(
                    extra_root_certificates@[i]@,
                )
            },
{
}

/// A registry client keeps the settings that it was opened with, and both its
/// client and the error are outcomes of opening with these settings.
pub proof fn law_opening_is_with_the_settings(
    settings: ClientSettings,
    opened: Result<RegistryClient, OciDistributionError>,
)
    requires
        call_ensures(RegistryClient::open, (settings,), opened),
    ensures
        opened matches Ok(registry) ==> {
            &&& registry.opened_with() == settings
            &&& RegistryClient::opens(settings, Ok(registry.opened_client()))
        },
        opened matches Err(error) ==> RegistryClient::opens(settings, Err(error)),
{
}

/// A pull client can be had if and only if the registry client could be
/// opened, and has what it was given; else there is the error of the opening.
pub proof fn law_pull_client_is_as_given<S, E>(
    opened: Result<RegistryClient, E>,
    reference: Reference,
    layer_store: S,
    auth: &RegistryAuth,
    max_concurrent_download: usize,
    created: Result<PullClient<'_, S>, PullError<E>>,
)
    requires
        call_ensures(
            PullClient::<S>::with_client::<E>,
            (opened, reference, layer_store, auth, max_concurrent_download),
            created,
        ),
    ensures
        created is Ok <==> opened is Ok,
        created matches Ok(puller) ==> {
            &&& puller.client == opened->Ok_0
            &&& puller.reference == reference
            &&& puller.layer_store == layer_store
            &&& puller.auth == auth
            &&& puller.max_concurrent_download == max_concurrent_download
        },
        created matches Err(error) ==> error == PullError::Client(opened->Err_0),
{
}

/// A new pull client has what it was given, over a client that was opened with
/// settings as they were given. If there is none, then because opening a client
/// with such settings can end with that error.
pub proof fn law_new_client_is_as_given<S>(
    reference: Reference,
    layer_store: S,
    auth: &RegistryAuth,
    max_concurrent_download: usize,
    no_proxy: Option<&str>,
    https_proxy: Option<&str>,
    extra_root_certificates: Vec<String>,
    created: Result<PullClient<'_, S>, PullError<OciDistributionError>>,
)
    requires
        call_ensures(
            PullClient::<S>::new,
            (
                reference,
                layer_store,
                auth,
                max_concurrent_download,
                no_proxy,
                https_proxy,
                extra_root_certificates,
            ),
            created,
        ),
    ensures
        created matches Ok(puller) ==> {
            let settings = puller.client.opened_with();
            &&& puller.reference == reference
            &&& puller.layer_store == layer_store
            &&& puller.auth == auth
            &&& puller.max_concurrent_download == max_concurrent_download
            &&& RegistryClient::opens(settings, Ok(puller.client.opened_client()))
            &&& settings.no_proxy is Some <==> no_proxy is Some
            &&& no_proxy matches Some(s) ==> settings.no_proxy->0@ == s@
            &&& settings.https_proxy is Some <==> https_proxy is Some
            &&& https_proxy matches Some(s) ==> settings.https_proxy->0@ == s@
            &&& settings.extra_root_certificates@.len() == extra_root_certificates@.len()
            &&& forall|i: int|
                0 <= i < extra_root_certificates@.len() ==> {
                    &&& (#[trigger] settings.extra_root_certificates@[i]).encoding
                        == CertificateEncoding::Pem
                    &&& settings.extra_root_certificates@[i].data@ == encode_utf8(
                        extra_root_certificates@[i]@,
                    )
                }
        },
        created matches Err(error) ==> {
            &&& error is Client
            &&& exists|settings: ClientSettings|
                {
                    &&& #[trigger] RegistryClient::opens(settings, Err(error->Client_0))
                    &&& settings.no_proxy is Some <==> no_proxy is Some
                    &&& no_proxy matches Some(s) ==> settings.no_proxy->0@ == s@
                    &&& settings.https_proxy is Some <==> https_proxy is Some
                    &&& https_proxy matches Some(s) ==> settings.https_proxy->0@ == s@
                    &&& settings.extra_root_certificates@.len() == extra_root_certificates@.len()
                    &&& forall|i: int|
                        0 <= i < extra_root_certificates@.len() ==> {
                            &&& (#[trigger] settings.extra_root_certificates@[i]).encoding
                                == CertificateEncoding::Pem
                            &&& settings.extra_root_certificates@[i].data@ == encode_utf8(
                                extra_root_certificates@[i]@,
                            )
                        }
                }
        },
{
    let (settings, opened) = choose|
        settings: ClientSettings,
        opened: Result<RegistryClient, OciDistributionError>,
    |
        {
            &&& #[trigger] settings.hold(no_proxy, https_proxy, extra_root_certificates@)
            &&& #[trigger] RegistryClient::opened_by(settings, opened)
            &&& created == PullClient::<S>::over(
                opened,
                reference,
                layer_store,
                auth,
                max_concurrent_download,
            )
        };
    if created is Err {
        assert(RegistryClient::opens(settings, Err(created->Err_0->Client_0)));
    }
}

/// Nothing was pulled later under the number of entry `i`.
pub open spec fn stands_last(pulled: Seq<(usize, LayerMeta)>, i: int) -> bool {
    forall|j: int| i < j < pulled.len() ==> (#[trigger] pulled[j]).0 != pulled[i].0
}

/// `numbers` rises and holds the numbers that occur and no others, and at the
/// place of each stands in `ordered` what was pulled under it last.
pub open spec fn sorted_by(
    numbers: Seq<usize>,
    pulled: Seq<(usize, LayerMeta)>,
    ordered: Seq<LayerMeta>,
) -> bool {
    &&& numbers.len() == ordered.len()
    &&& forall|p: int, q: int| 0 <= p < q < numbers.len() ==> numbers[p] < numbers[q]
    &&& forall|p: int| 0 <= p < numbers.len() ==> occurs(pulled, #[trigger] numbers[p])
    &&& forall|i: int|
        #![trigger pulled[i]]
        0 <= i < pulled.len() && stands_last(pulled, i) ==> exists|p: int|
            0 <= p < numbers.len() && #[trigger] numbers[p] == pulled[i].0 && ordered[p]
                == pulled[i].1
}

/// Sorted layers stand by rising number, one for each number that occurs: what
/// was pulled under it last.
pub proof fn law_layers_are_sorted_by_number(
    pulled: Vec<(usize, LayerMeta)>,
    ordered: Vec<LayerMeta>,
)
    requires
        call_ensures(sort_layers, (pulled,), ordered),
    ensures
        exists|numbers: Seq<usize>| sorted_by(numbers, pulled@, ordered@),
{
    let found = by_number(pulled@);
    let numbers = choose|numbers: Seq<usize>| #[trigger]
        lists_rising(numbers, found.dom()) && ordered@ == picked(found, numbers);
    assert forall|p: int| 0 <= p < numbers.len() implies occurs(
        pulled@,
        #[trigger] numbers[p],
    ) by {
        assert(numbers.contains(numbers[p]));
        lemma_numbers_occur(pulled@, numbers[p]);
    }
    assert forall|i: int|
        #![trigger pulled@[i]]
        0 <= i < pulled@.len() && stands_last(pulled@, i) implies exists|p: int|
        0 <= p < numbers.len() && #[trigger] numbers[p] == pulled@[i].0 && ordered@[p]
            == pulled@[i].1 by {
        law_last_pull_counts(pulled@, i);
        assert(numbers.contains(pulled@[i].0));
        let p = choose|p: int| 0 <= p < numbers.len() && numbers[p] == pulled@[i].0;
        assert(ordered@[p] == pulled@[i].1);
    }
    assert(sorted_by(numbers, pulled@, ordered@));
}

/// A pull succeeds if and only if every layer was pulled, and else ends with
/// the error that ended it. Where each layer of a manifest was pulled once,
/// there are as many layers as in the manifest, each at its own place.
pub proof fn law_pulled_layers_are_in_manifest_order<S, E>(
    puller: PullClient<'_, S>,
    layer_metas: Result<Vec<(usize, LayerMeta)>, PullError<E>>,
    pulled: Result<Vec<LayerMeta>, PullError<E>>,
    count: nat,
)
    requires
        call_ensures(PullClient::<S>::async_pull_layers::<E>, (&puller, layer_metas), pulled),
        count <= usize::MAX,
    ensures
        pulled is Ok <==> layer_metas is Ok,
        pulled matches Err(error) ==> error == layer_metas->Err_0,
        layer_metas matches Ok(metas) ==> each_layer_once(metas@, count) ==> {
            &&& pulled->Ok_0@.len() == count
            &&& forall|i: int|
                0 <= i < metas@.len() ==> pulled->Ok_0@[(#[trigger] metas@[i]).0 as int]
                    == metas@[i].1
        },
{
    if layer_metas is Ok {
        let metas = layer_metas->Ok_0;
        if each_layer_once(metas@, count) {
            law_manifest_order(metas@, count, pulled->Ok_0@);
        }
    }
}

/// What the pulled layers are does not depend on the client: two clients that
/// are handed the same layers give the same layers back.
pub proof fn law_layers_do_not_depend_on_the_client<S, E>(
    puller: PullClient<'_, S>,
    other: PullClient<'_, S>,
    layer_metas: Result<Vec<(usize, LayerMeta)>, PullError<E>>,
    pulled: Result<Vec<LayerMeta>, PullError<E>>,
    other_pulled: Result<Vec<LayerMeta>, PullError<E>>,
)
    requires
        call_ensures(PullClient::<S>::async_pull_layers::<E>, (&puller, layer_metas), pulled),
        call_ensures(PullClient::<S>::async_pull_layers::<E>, (&other, layer_metas), other_pulled),
    ensures
        pulled is Ok <==> other_pulled is Ok,
        pulled is Ok ==> pulled->Ok_0@ == other_pulled->Ok_0@,
        pulled is Err ==> pulled->Err_0 == other_pulled->Err_0,
{
    if layer_metas is Ok {
        law_order_is_unique(layer_metas->Ok_0@, pulled->Ok_0@, other_pulled->Ok_0@);
    }
}

/// The manifest, its digest and the configuration are those that the registry
/// answered with, and its error is passed on.
pub proof fn law_manifest_is_the_answer<S, M, E>(
    puller: &mut PullClient<'_, S>,
    answer: Result<(M, String, String), E>,
    pulled: Result<(M, String, String), PullError<E>>,
)
    requires
        call_ensures(PullClient::<S>::pull_manifest::<M, E>, (puller, answer), pulled),
    ensures
        pulled is Ok <==> answer is Ok,
        pulled matches Ok(manifest) ==> manifest == answer->Ok_0,
        pulled matches Err(error) ==> error == PullError::Manifest(answer->Err_0),
{
}

/// The bootstrap layer is the first layer of the pull. A pull that failed ends
/// with its own error, and one that gave no layer with the error for that.
pub proof fn law_bootstrap_is_the_first_layer<S, E>(
    puller: PullClient<'_, S>,
    layer_metas: Result<Vec<LayerMeta>, PullError<E>>,
    pulled: Result<LayerMeta, PullError<E>>,
)
    requires
        call_ensures(PullClient::<S>::pull_bootstrap::<E>, (&puller, layer_metas), pulled),
    ensures
        pulled is Ok <==> layer_metas is Ok && layer_metas->Ok_0@.len() > 0,
        pulled matches Ok(layer_meta) ==> layer_meta == layer_metas->Ok_0@.first(),
        layer_metas matches Err(error) ==> pulled->Err_0 == error,
        layer_metas matches Ok(metas) ==> metas@.len() == 0 ==> pulled->Err_0
            == PullError::<E>::NoBootstrapLayer,
{
}

/// The bootstrap pull of one layer that was handled gives that layer.
pub proof fn law_bootstrap_pull_gives_its_layer<S, E>(
    puller: PullClient<'_, S>,
    layer_meta: LayerMeta,
    finished: Vec<(usize, LayerMeta)>,
    layer_metas: Result<Vec<LayerMeta>, PullError<E>>,
    pulled: Result<LayerMeta, PullError<E>>,
)
    requires
        finished@ == seq![(0usize, layer_meta)],
        call_ensures(
            PullClient::<S>::async_pull_layers::<E>,
            (&puller, Ok::<Vec<(usize, LayerMeta)>, PullError<E>>(finished)),
            layer_metas,
        ),
        call_ensures(PullClient::<S>::pull_bootstrap::<E>, (&puller, layer_metas), pulled),
    ensures
        pulled == Ok::<LayerMeta, PullError<E>>(layer_meta),
{
    assert(finished@[0].0 == 0 && finished@[0].1 == layer_meta);
    assert(occurs(finished@, 0));
    assert(each_layer_once(finished@, 1));
    law_pulled_layers_are_in_manifest_order(puller, Ok(finished), layer_metas, 1);
    assert(layer_metas->Ok_0@[finished@[0].0 as int] == layer_meta);
    law_bootstrap_is_the_first_layer(puller, layer_metas, pulled);
}

/// The message of a pull error says what failed, and then quotes the error
/// inside, word for word; an error of the client is quoted alone.
pub proof fn law_pull_message_quotes_the_error<E>(
    error: PullError<E>,
    detail: &str,
    message: String,
)
    requires
        call_ensures(PullError::<E>::message, (&error, detail), message),
    ensures
        error is Client ==> message@ == detail@,
        error is Manifest ==> message@ == "failed to pull manifest "@ + detail@,
        error is BlobStream ==> message@ == "failed to async pull blob stream "@ + detail@,
        error is HandleLayer ==> message@ == "failed to handle layer: "@ + detail@,
        error is NoBootstrapLayer ==> message@ == "Failed to  download this bootstrap layer"@,
{
}

/// The message of a layer error: one about the key says which part failed, one
/// about the decryption then quotes the error inside, one about the decoder or
/// the unpacking is the error inside, and one about the digests quotes both,
/// the one that was found first.
pub proof fn law_layer_message_quotes_the_error<E>(
    error: LayerError<E>,
    detail: &str,
    message: String,
)
    requires
        call_ensures(LayerError::<E>::message, (&error, detail), message),
    ensures
        error is DecryptThread ==> message@ == "decryptor thread failed to execute"@,
        error is DecryptKey ==> message@ == "failed to get decrypt key11111111111"@,
        error is Plaintext ==> message@ == "failed to async_get_plaintext_layer: "@ + detail@,
        error is Decoder ==> message@ == detail@,
        error is Unpack ==> message@ == detail@,
        error matches LayerError::UnequalDigest { uncompressed_digest, diff_id } ==> message@
            == "unequal uncompressed digest "@ + debug_text(uncompressed_digest@)
            + " config diff_id "@ + debug_text(diff_id@),
{
}

} // verus!
