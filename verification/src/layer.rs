//! One layer, from its descriptor to the metadata that is kept of it.
//!
//! Handling a layer alternates work that the caller does and decisions that
//! are taken here. Each point at which the caller has something to do is a
//! type of its own (`StorePathStep`, `MediaTypeStep`, ...): its fields say
//! what the work is about, and its method takes what came out of the work and
//! gives the next point. An outside value that the work produced (a key, a
//! reader, a decoder) is handed back untouched beside the next step.
//!
//! There are two types of layers:
//! 1. compressed layer = Compress(layer data)
//! 2. encrypted and compressed layer = Compress(Encrypt(layer data))

use vstd::hash_map::StringHashMap;
use vstd::prelude::*;

use crate::error::LayerError;
use crate::error::PullError;
use crate::text::optional_str;
use crate::text::optional_string;
use crate::text::owned_text;

verus! {

/// What a manifest says of a layer, as far as the handling depends on it.
#[derive(Debug, PartialEq, Eq)]
pub struct LayerDescriptor {
    /// The media type of the layer as the registry sends it.
    pub media_type: String,
    /// The digest of the layer as the registry sends it.
    pub digest: String,
}

/// What is kept of a layer that was pulled.
#[derive(Debug, PartialEq, Eq)]
pub struct LayerMeta {
    /// Whether the layer came encrypted.
    pub encrypted: bool,
    /// The digest of the layer as the registry sends it.
    pub compressed_digest: String,
    /// The digest of the decrypted and decompressed layer.
    pub uncompressed_digest: String,
    /// The place under which the layer was unpacked.
    pub store_path: String,
}

impl Clone for LayerMeta {
    fn clone(&self) -> (copy: Self)
        ensures
            copy == *self,
    {
        LayerMeta {
            encrypted: self.encrypted,
            compressed_digest: self.compressed_digest.clone(),
            uncompressed_digest: self.uncompressed_digest.clone(),
            store_path: self.store_path.clone(),
        }
    }
}

/// The layers that were pulled before, each under the digest of the layer as
/// the registry sends it.
pub struct MetaStore {
    pub layer_db: StringHashMap<LayerMeta>,
}

impl Default for MetaStore {
    fn default() -> (store: Self)
        ensures
            store.layer_db@ == Map::<Seq<char>, LayerMeta>::empty(),
    {
        MetaStore { layer_db: StringHashMap::new() }
    }
}

/// A layer together with what its handling is given.
#[derive(Debug, PartialEq, Eq)]
pub struct LayerTask {
    pub layer: LayerDescriptor,
    /// The digest that the image configuration gives for the decrypted and
    /// decompressed layer.
    pub diff_id: String,
    /// What the key is asked for with, should the layer be encrypted.
    pub decrypt_config: Option<String>,
}

/// How the handling of a layer begins.
#[derive(Debug, PartialEq, Eq)]
pub enum LayerStart {
    /// The layer was pulled before: this is what is kept of it.
    Cached(LayerMeta),
    /// The layer has to be fetched.
    Fetch(StorePathStep),
}

/// To do: make a new path in the layer store.
#[derive(Debug, PartialEq, Eq)]
pub struct StorePathStep {
    pub task: LayerTask,
}

/// To do: find out from `task.layer.media_type` whether the layer is
/// encrypted, and which media type its plaintext has if it is.
#[derive(Debug, PartialEq, Eq)]
pub struct MediaTypeStep {
    pub task: LayerTask,
    pub store_path: String,
}

/// How the handling of a layer goes on once its media type is known.
#[derive(Debug, PartialEq, Eq)]
pub enum LayerRoute {
    Encrypted(KeyStep),
    Plain(DecoderStep),
}

/// To do: on a thread of its own, ask for the key of `task.layer` with
/// `task.decrypt_config`.
#[derive(Debug, PartialEq, Eq)]
pub struct KeyStep {
    pub task: LayerTask,
    pub store_path: String,
    /// The media type of the plaintext.
    pub media_type: String,
}

/// To do: decrypt the layer data of `task.layer` with the key.
#[derive(Debug, PartialEq, Eq)]
pub struct PlaintextStep {
    pub task: LayerTask,
    pub store_path: String,
    /// The media type of the plaintext.
    pub media_type: String,
}

/// To do: find the decoder for `media_type`.
#[derive(Debug, PartialEq, Eq)]
pub struct DecoderStep {
    pub task: LayerTask,
    pub store_path: String,
    pub encrypted: bool,
    /// The media type of the data to be decoded: that of the plaintext for an
    /// encrypted layer, that of the layer else.
    pub media_type: String,
}

/// To do: decompress the data, unpack it under `store_path`, and compute the
/// digest of what was unpacked, by the algorithm of `task.diff_id`.
#[derive(Debug, PartialEq, Eq)]
pub struct UnpackStep {
    pub task: LayerTask,
    pub store_path: String,
    pub encrypted: bool,
}

/// Takes up layer number `index` of a manifest, once the registry has been
/// asked for its data: `blob` is the reader of the data, or why there is none.
/// The layer belongs to the digest at the same place in `diff_ids`.
pub fn layer_task<R, E>(
    index: usize,
    layer: LayerDescriptor,
    diff_ids: &[String],
    decrypt_config: &Option<&str>,
    blob: Result<R, E>,
) -> (taken: Result<(LayerTask, R), PullError<E>>)
    requires
        blob is Ok ==> index < diff_ids@.len(),
    ensures
        match blob {
            Ok(reader) => taken matches Ok((task, data)) && {
                &&& data == reader
                &&& task.layer == layer
                &&& task.diff_id == diff_ids@[index as int]
                &&& optional_string(task.decrypt_config) == optional_str(*decrypt_config)
            },
            Err(error) => taken == Err::<(LayerTask, R), PullError<E>>(
                PullError::BlobStream(error),
            ),
        },
{
    match blob {
        Ok(reader) => {
            let diff_id = diff_ids[index].clone();
            let decrypt_config = owned_text(decrypt_config);
            Ok((LayerTask { layer, diff_id, decrypt_config }, reader))
        },
        Err(error) => Err(PullError::BlobStream(error)),
    }
}

impl LayerTask {
    /// How the handling of this layer begins, given the layers pulled before.
    pub open spec fn started(self, known: Map<Seq<char>, LayerMeta>) -> LayerStart {
        if known.contains_key(self.layer.digest@) {
            LayerStart::Cached(known[self.layer.digest@])
        } else {
            LayerStart::Fetch(StorePathStep { task: self })
        }
    }

    /// Begins to handle the layer: one that was pulled before is not handled
    /// again.
    pub fn handle_layer(self, store: &MetaStore) -> (start: LayerStart)
        ensures
            start == self.started(store.layer_db@),
            match start {
                LayerStart::Cached(layer_meta) => {
                    &&& store.layer_db@.contains_key(self.layer.digest@)
                    &&& layer_meta == store.layer_db@[self.layer.digest@]
                },
                LayerStart::Fetch(step) => {
                    &&& !store.layer_db@.contains_key(self.layer.digest@)
                    &&& step.task == self
                },
            },
    {
        match store.layer_db.get(self.layer.digest.as_str()) {
            Some(layer_meta) => LayerStart::Cached(layer_meta.clone()),
            None => LayerStart::Fetch(StorePathStep { task: self }),
        }
    }
}

impl StorePathStep {
    /// Goes on with the new path in the layer store.
    pub fn store_path(self, store_path: String) -> (next: MediaTypeStep)
        ensures
            next == (MediaTypeStep { task: self.task, store_path }),
    {
        MediaTypeStep { task: self.task, store_path }
    }
}

impl MediaTypeStep {
    /// The way that a layer takes: an encrypted one is decrypted first and
    /// decoded by the media type of its plaintext, another is decoded by its
    /// own media type.
    pub open spec fn routed(self, encrypted: bool, plaintext_media_type: String) -> LayerRoute {
        if encrypted {
            LayerRoute::Encrypted(
                KeyStep {
                    task: self.task,
                    store_path: self.store_path,
                    media_type: plaintext_media_type,
                },
            )
        } else {
            LayerRoute::Plain(
                DecoderStep {
                    task: self.task,
                    store_path: self.store_path,
                    encrypted: false,
                    media_type: self.task.layer.media_type,
                },
            )
        }
    }

    /// Goes on with what the media type says: whether the layer is encrypted,
    /// and the media type of its plaintext.
    pub fn media_type(self, encrypted: bool, plaintext_media_type: String) -> (route: LayerRoute)
        ensures
            route == self.routed(encrypted, plaintext_media_type),
            match route {
                LayerRoute::Encrypted(step) => {
                    &&& encrypted
                    &&& step.task == self.task
                    &&& step.store_path == self.store_path
                    &&& step.media_type == plaintext_media_type
                },
                LayerRoute::Plain(step) => {
                    &&& !encrypted && !step.encrypted
                    &&& step.task == self.task
                    &&& step.store_path == self.store_path
                    &&& step.media_type == self.task.layer.media_type
                },
            },
    {
        if encrypted {
            LayerRoute::Encrypted(
                KeyStep {
                    task: self.task,
                    store_path: self.store_path,
                    media_type: plaintext_media_type,
                },
            )
        } else {
            let media_type = self.task.layer.media_type.clone();
            LayerRoute::Plain(
                DecoderStep {
                    task: self.task,
                    store_path: self.store_path,
                    encrypted: false,
                    media_type,
                },
            )
        }
    }
}

impl KeyStep {
    /// Where the question for the key leads: the outer result is that of the
    /// thread, the inner one that of the question.
    pub open spec fn keyed<K, E>(self, key: Result<Result<K, E>, E>) -> Result<
        (PlaintextStep, K),
        LayerError<E>,
    > {
        match key {
            Ok(Ok(k)) => Ok(
                (
                    PlaintextStep {
                        task: self.task,
                        store_path: self.store_path,
                        media_type: self.media_type,
                    },
                    k,
                ),
            ),
            Ok(Err(error)) => Err(LayerError::DecryptKey(error)),
            Err(error) => Err(LayerError::DecryptThread(error)),
        }
    }

    /// Goes on with the key.
    pub fn key<K, E>(self, key: Result<Result<K, E>, E>) -> (next: Result<
        (PlaintextStep, K),
        LayerError<E>,
    >)
        ensures
            next == self.keyed(key),
            next matches Ok((step, k)) ==> {
                &&& key == Ok::<Result<K, E>, E>(Ok(k))
                &&& step.task == self.task
                &&& step.store_path == self.store_path
                &&& step.media_type == self.media_type
            },
    {
        match key {
            Ok(Ok(k)) => {
                let step = PlaintextStep {
                    task: self.task,
                    store_path: self.store_path,
                    media_type: self.media_type,
                };
                Ok((step, k))
            },
            Ok(Err(error)) => Err(LayerError::DecryptKey(error)),
            Err(error) => Err(LayerError::DecryptThread(error)),
        }
    }
}

impl PlaintextStep {
    /// Where the decryption leads.
    pub open spec fn decrypted<R, E>(self, plaintext: Result<R, E>) -> Result<
        (DecoderStep, R),
        LayerError<E>,
    > {
        match plaintext {
            Ok(reader) => Ok(
                (
                    DecoderStep {
                        task: self.task,
                        store_path: self.store_path,
                        encrypted: true,
                        media_type: self.media_type,
                    },
                    reader,
                ),
            ),
            Err(error) => Err(LayerError::Plaintext(error)),
        }
    }

    /// Goes on with the reader of the decrypted data.
    pub fn plaintext<R, E>(self, plaintext: Result<R, E>) -> (next: Result<
        (DecoderStep, R),
        LayerError<E>,
    >)
        ensures
            next == self.decrypted(plaintext),
            next matches Ok((step, reader)) ==> {
                &&& plaintext == Ok::<R, E>(reader)
                &&& step.task == self.task
                &&& step.store_path == self.store_path
                &&& step.encrypted
                &&& step.media_type == self.media_type
            },
    {
        match plaintext {
            Ok(reader) => {
                let step = DecoderStep {
                    task: self.task,
                    store_path: self.store_path,
                    encrypted: true,
                    media_type: self.media_type,
                };
                Ok((step, reader))
            },
            Err(error) => Err(LayerError::Plaintext(error)),
        }
    }
}

impl DecoderStep {
    /// Where the search for a decoder leads.
    pub open spec fn decoded<C, E>(self, decoder: Result<C, E>) -> Result<
        (UnpackStep, C),
        LayerError<E>,
    > {
        match decoder {
            Ok(c) => Ok(
                (
                    UnpackStep {
                        task: self.task,
                        store_path: self.store_path,
                        encrypted: self.encrypted,
                    },
                    c,
                ),
            ),
            Err(error) => Err(LayerError::Decoder(error)),
        }
    }

    /// Goes on with the decoder.
    pub fn decoder<C, E>(self, decoder: Result<C, E>) -> (next: Result<
        (UnpackStep, C),
        LayerError<E>,
    >)
        ensures
            next == self.decoded(decoder),
            next matches Ok((step, c)) ==> {
                &&& decoder == Ok::<C, E>(c)
                &&& step.task == self.task
                &&& step.store_path == self.store_path
                &&& step.encrypted == self.encrypted
            },
    {
        match decoder {
            Ok(c) => {
                let step = UnpackStep {
                    task: self.task,
                    store_path: self.store_path,
                    encrypted: self.encrypted,
                };
                Ok((step, c))
            },
            Err(error) => Err(LayerError::Decoder(error)),
        }
    }
}

impl UnpackStep {
    /// What is kept of the layer if its unpacked data has the digest
    /// `uncompressed_digest`.
    pub open spec fn meta(self, uncompressed_digest: String) -> LayerMeta {
        LayerMeta {
            encrypted: self.encrypted,
            compressed_digest: self.task.layer.digest,
            uncompressed_digest,
            store_path: self.store_path,
        }
    }

    /// What comes of the layer: its data is accepted only if it has the digest
    /// that the image configuration gives.
    pub open spec fn finished<E>(self, digest: Result<String, E>) -> Result<
        LayerMeta,
        LayerError<E>,
    > {
        match digest {
            Ok(d) => if d@ == self.task.diff_id@ {
                Ok(self.meta(d))
            } else {
                Err(
                    LayerError::UnequalDigest {
                        uncompressed_digest: d,
                        diff_id: self.task.diff_id,
                    },
                )
            },
            Err(error) => Err(LayerError::Unpack(error)),
        }
    }

    /// Ends with the digest of the unpacked data.
    pub fn unpacked<E>(self, digest: Result<String, E>) -> (handled: Result<
        LayerMeta,
        LayerError<E>,
    >)
        ensures
            handled == self.finished(digest),
            handled matches Ok(layer_meta) ==> {
                &&& digest == Ok::<String, E>(layer_meta.uncompressed_digest)
                &&& layer_meta.uncompressed_digest@ == self.task.diff_id@
                &&& layer_meta.compressed_digest == self.task.layer.digest
                &&& layer_meta.store_path == self.store_path
                &&& layer_meta.encrypted == self.encrypted
            },
    {
        match digest {
            Ok(uncompressed_digest) => {
                // The uncompressed digest should equal the diff_id in the
                // image configuration.
                if uncompressed_digest == self.task.diff_id {
                    Ok(
                        LayerMeta {
                            encrypted: self.encrypted,
                            compressed_digest: self.task.layer.digest,
                            uncompressed_digest,
                            store_path: self.store_path,
                        },
                    )
                } else {
                    Err(
                        LayerError::UnequalDigest {
                            uncompressed_digest,
                            diff_id: self.task.diff_id,
                        },
                    )
                }
            },
            Err(error) => Err(LayerError::Unpack(error)),
        }
    }
}

/// Files what came of layer number `index` under that number.
pub fn numbered<E>(index: usize, handled: Result<LayerMeta, E>) -> (filed: Result<
    (usize, LayerMeta),
    PullError<E>,
>)
    ensures
        filed == match handled {
            Ok(layer_meta) => Ok::<(usize, LayerMeta), PullError<E>>((index, layer_meta)),
            Err(error) => Err(PullError::HandleLayer(error)),
        },
{
    match handled {
        Ok(layer_meta) => Ok((index, layer_meta)),
        Err(error) => Err(PullError::HandleLayer(error)),
    }
}

} // verus!
