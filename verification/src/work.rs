//! What work the operations ask for, and what they make of its outcome.
//!
//! Each law here speaks of calls: `call_ensures(f, arguments, result)` says
//! that `f`, called with the arguments, can return the result.

use vstd::prelude::*;

use crate::error::LayerError;
use crate::error::PullError;
use crate::layer::layer_task;
use crate::layer::numbered;
use crate::layer::DecoderStep;
use crate::layer::KeyStep;
use crate::layer::LayerDescriptor;
use crate::layer::LayerMeta;
use crate::layer::LayerRoute;
use crate::layer::LayerStart;
use crate::layer::LayerTask;
use crate::layer::MediaTypeStep;
use crate::layer::MetaStore;
use crate::layer::PlaintextStep;
use crate::layer::StorePathStep;
use crate::layer::UnpackStep;

verus! {

/// A layer is handled with what the manifest says of it, with the digest at
/// its place among the `diff_ids`, and with the caller's decryption
/// configuration; its data is the reader that the registry gave.
pub proof fn law_layer_is_taken_up_as_given<R, E>(
    index: usize,
    layer: LayerDescriptor,
    diff_ids: &[String],
    decrypt_config: &Option<&str>,
    blob: Result<R, E>,
    taken: Result<(LayerTask, R), PullError<E>>,
)
    requires
        blob is Ok ==> index < diff_ids@.len(),
        call_ensures(
            layer_task::<R, E>,
            (index, layer, diff_ids, decrypt_config, blob),
            taken,
        ),
    ensures
        taken is Ok <==> blob is Ok,
        taken matches Ok((task, reader)) ==> {
            &&& blob == Ok::<R, E>(reader)
            &&& task.layer.media_type == layer.media_type
            &&& task.layer.digest == layer.digest
            &&& task.diff_id == diff_ids@[index as int]
            &&& task.decrypt_config is Some <==> *decrypt_config is Some
            &&& *decrypt_config matches Some(config) ==> task.decrypt_config->0@ == config@
        },
        taken matches Err(error) ==> blob is Err && error == PullError::BlobStream(blob->Err_0),
{
}

/// A layer that is not in the store is fetched as it was given; one that is in
/// the store ends with what the store keeps under its digest.
pub proof fn law_unknown_layer_is_fetched_as_given(
    task: LayerTask,
    store: MetaStore,
    start: LayerStart,
)
    requires
        call_ensures(LayerTask::handle_layer, (task, &store), start),
    ensures
        start is Fetch <==> !store.layer_db@.contains_key(task.layer.digest@),
        start matches LayerStart::Fetch(step) ==> step.task == task,
        start matches LayerStart::Cached(layer_meta) ==> layer_meta
            == store.layer_db@[task.layer.digest@],
{
}

/// With a default store, no layer is known: every layer is fetched as it was
/// given.
pub proof fn law_default_store_knows_nothing(store: MetaStore, task: LayerTask, start: LayerStart)
    requires
        call_ensures(<MetaStore as Default>::default, (), store),
        call_ensures(LayerTask::handle_layer, (task, &store), start),
    ensures
        start matches LayerStart::Fetch(step) && step.task == task,
{
}

/// The media type is read off the layer that is fetched, and the layer is
/// unpacked under the path that was made for it.
pub proof fn law_store_path_is_taken(
    step: StorePathStep,
    store_path: String,
    next: MediaTypeStep,
)
    requires
        call_ensures(StorePathStep::store_path, (step, store_path), next),
    ensures
        next.task == step.task,
        next.store_path == store_path,
{
}

/// The key of an encrypted layer is asked for with the caller's configuration
/// and for the caller's layer: the task goes on unchanged. A layer that is not
/// encrypted goes on to its decoder unchanged, by its own media type.
pub proof fn law_route_keeps_the_task(
    step: MediaTypeStep,
    encrypted: bool,
    plaintext_media_type: String,
    route: LayerRoute,
)
    requires
        call_ensures(MediaTypeStep::media_type, (step, encrypted, plaintext_media_type), route),
    ensures
        route is Encrypted <==> encrypted,
        route matches LayerRoute::Encrypted(next) ==> {
            &&& next.task == step.task
            &&& next.store_path == step.store_path
            &&& next.media_type == plaintext_media_type
        },
        route matches LayerRoute::Plain(next) ==> {
            &&& next.task == step.task
            &&& next.store_path == step.store_path
            &&& next.media_type == step.task.layer.media_type
            &&& !next.encrypted
        },
{
}

/// The layer is decrypted with the key that was had, and goes on unchanged.
/// Without a key it ends with the error of the thread or of the question.
pub proof fn law_key_is_handed_on<K, E>(
    step: KeyStep,
    key: Result<Result<K, E>, E>,
    next: Result<(PlaintextStep, K), LayerError<E>>,
)
    requires
        call_ensures(KeyStep::key::<K, E>, (step, key), next),
    ensures
        next is Ok <==> key is Ok && key->Ok_0 is Ok,
        next matches Ok((then, k)) ==> {
            &&& k == key->Ok_0->Ok_0
            &&& then.task == step.task
            &&& then.store_path == step.store_path
            &&& then.media_type == step.media_type
        },
        key matches Err(error) ==> next == Err::<(PlaintextStep, K), LayerError<E>>(
            LayerError::DecryptThread(error),
        ),
        key matches Ok(Err(error)) ==> next == Err::<(PlaintextStep, K), LayerError<E>>(
            LayerError::DecryptKey(error),
        ),
{
}

/// The decrypted data goes to the decoder of its own media type, and the layer
/// goes on unchanged, as an encrypted one.
pub proof fn law_plaintext_is_handed_on<R, E>(
    step: PlaintextStep,
    plaintext: Result<R, E>,
    next: Result<(DecoderStep, R), LayerError<E>>,
)
    requires
        call_ensures(PlaintextStep::plaintext::<R, E>, (step, plaintext), next),
    ensures
        next is Ok <==> plaintext is Ok,
        next matches Ok((then, reader)) ==> {
            &&& reader == plaintext->Ok_0
            &&& then.task == step.task
            &&& then.store_path == step.store_path
            &&& then.media_type == step.media_type
            &&& then.encrypted
        },
        plaintext matches Err(error) ==> next == Err::<(DecoderStep, R), LayerError<E>>(
            LayerError::Plaintext(error),
        ),
{
}

/// The data is unpacked with the decoder that was found, under the path of the
/// layer, and its digest is computed by the algorithm of the layer's own
/// `diff_id`: the task goes on unchanged.
pub proof fn law_unpacking_keeps_the_task<C, E>(
    step: DecoderStep,
    decoder: Result<C, E>,
    next: Result<(UnpackStep, C), LayerError<E>>,
)
    requires
        call_ensures(DecoderStep::decoder::<C, E>, (step, decoder), next),
    ensures
        next is Ok <==> decoder is Ok,
        next matches Ok((then, c)) ==> {
            &&& c == decoder->Ok_0
            &&& then.task == step.task
            &&& then.store_path == step.store_path
            &&& then.encrypted == step.encrypted
        },
        decoder matches Err(error) ==> next == Err::<(UnpackStep, C), LayerError<E>>(
            LayerError::Decoder(error),
        ),
{
}

/// Unpacked data is accepted if and only if its digest is the `diff_id` that
/// the unpacking was asked for with, and then the digest is kept. Other data
/// is refused with both digests, and failed unpacking with its own error.
pub proof fn law_digest_decides<E>(
    step: UnpackStep,
    digest: Result<String, E>,
    handled: Result<LayerMeta, LayerError<E>>,
)
    requires
        call_ensures(UnpackStep::unpacked::<E>, (step, digest), handled),
    ensures
        handled is Ok <==> digest is Ok && digest->Ok_0@ == step.task.diff_id@,
        handled matches Ok(layer_meta) ==> {
            &&& layer_meta.uncompressed_digest == digest->Ok_0
            &&& layer_meta.compressed_digest == step.task.layer.digest
            &&& layer_meta.store_path == step.store_path
            &&& layer_meta.encrypted == step.encrypted
        },
        digest matches Ok(found) ==> found@ != step.task.diff_id@ ==> handled == Err::<
            LayerMeta,
            LayerError<E>,
        >(LayerError::UnequalDigest { uncompressed_digest: found, diff_id: step.task.diff_id }),
        digest matches Err(error) ==> handled == Err::<LayerMeta, LayerError<E>>(
            LayerError::Unpack(error),
        ),
{
}

/// What came of a layer is filed under the number of the layer.
pub proof fn law_layer_is_filed_under_its_number<E>(
    index: usize,
    handled: Result<LayerMeta, E>,
    filed: Result<(usize, LayerMeta), PullError<E>>,
)
    requires
        call_ensures(numbered::<E>, (index, handled), filed),
    ensures
        filed is Ok <==> handled is Ok,
        filed matches Ok((number, layer_meta)) ==> number == index && layer_meta == handled->Ok_0,
        filed matches Err(error) ==> error == PullError::HandleLayer(handled->Err_0),
{
}

/// From its beginning to the search for its decoder, a layer that is not
/// encrypted is the layer that `handle_layer` was called on: its media type is
/// read off that layer, and so is the one that its decoder is sought for.
pub proof fn law_plain_run_to_decoder(
    task: LayerTask,
    store: MetaStore,
    first: StorePathStep,
    store_path: String,
    located: MediaTypeStep,
    plaintext_media_type: String,
    sought: DecoderStep,
)
    requires
        call_ensures(LayerTask::handle_layer, (task, &store), LayerStart::Fetch(first)),
        call_ensures(StorePathStep::store_path, (first, store_path), located),
        call_ensures(
            MediaTypeStep::media_type,
            (located, false, plaintext_media_type),
            LayerRoute::Plain(sought),
        ),
    ensures
        located.task.layer.media_type == task.layer.media_type,
        sought.media_type == task.layer.media_type,
        sought.task == task,
        sought.store_path == store_path,
        !sought.encrypted,
{
    law_unknown_layer_is_fetched_as_given(task, store, LayerStart::Fetch(first));
    law_store_path_is_taken(first, store_path, located);
    law_route_keeps_the_task(located, false, plaintext_media_type, LayerRoute::Plain(sought));
}

/// From its beginning to the search for its decoder, an encrypted layer is the
/// layer that `handle_layer` was called on: its media type is read off that
/// layer, its key is asked for with that task's configuration and for that
/// task's layer, it is decrypted as that layer with that key, and the decoder
/// is sought for the media type of the plaintext.
pub proof fn law_encrypted_run_to_decoder<K, R, E>(
    task: LayerTask,
    store: MetaStore,
    first: StorePathStep,
    store_path: String,
    located: MediaTypeStep,
    plaintext_media_type: String,
    asked: KeyStep,
    key: Result<Result<K, E>, E>,
    keyed: PlaintextStep,
    had: K,
    plaintext: Result<R, E>,
    sought: DecoderStep,
    reader: R,
)
    requires
        call_ensures(LayerTask::handle_layer, (task, &store), LayerStart::Fetch(first)),
        call_ensures(StorePathStep::store_path, (first, store_path), located),
        call_ensures(
            MediaTypeStep::media_type,
            (located, true, plaintext_media_type),
            LayerRoute::Encrypted(asked),
        ),
        call_ensures(
            KeyStep::key::<K, E>,
            (asked, key),
            Ok::<(PlaintextStep, K), LayerError<E>>((keyed, had)),
        ),
        call_ensures(
            PlaintextStep::plaintext::<R, E>,
            (keyed, plaintext),
            Ok::<(DecoderStep, R), LayerError<E>>((sought, reader)),
        ),
    ensures
        located.task.layer.media_type == task.layer.media_type,
        asked.task.layer == task.layer,
        asked.task.decrypt_config == task.decrypt_config,
        keyed.task.layer == task.layer,
        key == Ok::<Result<K, E>, E>(Ok(had)),
        plaintext == Ok::<R, E>(reader),
        sought.media_type == plaintext_media_type,
        sought.task == task,
        sought.store_path == store_path,
        sought.encrypted,
{
    let route = LayerRoute::Encrypted(asked);
    law_unknown_layer_is_fetched_as_given(task, store, LayerStart::Fetch(first));
    law_store_path_is_taken(first, store_path, located);
    law_route_keeps_the_task(located, true, plaintext_media_type, route);
    law_key_is_handed_on(asked, key, Ok((keyed, had)));
    law_plaintext_is_handed_on(keyed, plaintext, Ok((sought, reader)));
}

/// From the search for its decoder to its end, a layer is unpacked with the
/// decoder that was found, under its own path and with its own `diff_id`, and
/// it is accepted only with that digest.
pub proof fn law_run_from_decoder<C, E>(
    sought: DecoderStep,
    decoder: Result<C, E>,
    unpacking: UnpackStep,
    found: C,
    digest: Result<String, E>,
    handled: Result<LayerMeta, LayerError<E>>,
)
    requires
        call_ensures(
            DecoderStep::decoder::<C, E>,
            (sought, decoder),
            Ok::<(UnpackStep, C), LayerError<E>>((unpacking, found)),
        ),
        call_ensures(UnpackStep::unpacked::<E>, (unpacking, digest), handled),
    ensures
        decoder == Ok::<C, E>(found),
        unpacking.task.diff_id == sought.task.diff_id,
        unpacking.store_path == sought.store_path,
        handled is Ok <==> digest is Ok && digest->Ok_0@ == sought.task.diff_id@,
        handled matches Ok(layer_meta) ==> {
            &&& layer_meta.uncompressed_digest@ == sought.task.diff_id@
            &&& layer_meta.compressed_digest == sought.task.layer.digest
            &&& layer_meta.store_path == sought.store_path
            &&& layer_meta.encrypted == sought.encrypted
        },
{
    law_unpacking_keeps_the_task(sought, decoder, Ok((unpacking, found)));
    law_digest_decides(unpacking, digest, handled);
}

} // verus!
