use image_pull::error::{LayerError, PullError};
use image_pull::layer::{
    layer_task, numbered, LayerDescriptor, LayerMeta, LayerRoute, LayerStart, LayerTask, MetaStore,
};
use image_pull::order::sort_layers;
use image_pull::text::owned_text;
use oci_client::manifest::{
    OciDescriptor, IMAGE_CONFIG_MEDIA_TYPE, IMAGE_LAYER_GZIP_MEDIA_TYPE, IMAGE_LAYER_MEDIA_TYPE,
};

const ENCRYPTED: &str = "application/vnd.oci.image.layer.v1.tar+gzip+encrypted";

struct Answers {
    encrypted: bool,
    key: Result<Result<u32, String>, String>,
    plaintext: Result<&'static str, String>,
    decoder: Result<char, String>,
    digest: Result<String, String>,
}

fn good(encrypted: bool) -> Answers {
    Answers {
        encrypted,
        key: Ok(Ok(77)),
        plaintext: Ok("plaintext reader"),
        decoder: Ok('z'),
        digest: Ok("sha256:diff".to_string()),
    }
}

fn task(media_type: &str, digest: &str, diff_id: &str) -> LayerTask {
    LayerTask {
        layer: LayerDescriptor {
            media_type: media_type.to_string(),
            digest: digest.to_string(),
        },
        diff_id: diff_id.to_string(),
        decrypt_config: Some("provider:key".to_string()),
    }
}

// Runs a layer through its steps with the given answers.
fn run(
    task: LayerTask,
    store: &MetaStore,
    answers: Answers,
) -> Result<LayerMeta, LayerError<String>> {
    run_under("/layers/5", task, store, answers)
}

// The same, with the layer unpacked under the given path.
fn run_under(
    store_path: &str,
    task: LayerTask,
    store: &MetaStore,
    answers: Answers,
) -> Result<LayerMeta, LayerError<String>> {
    let media_type = task.layer.media_type.clone();
    let step = match task.handle_layer(store) {
        LayerStart::Cached(layer_meta) => return Ok(layer_meta),
        LayerStart::Fetch(step) => step,
    };
    let step = step.store_path(store_path.to_string());
    assert_eq!(step.store_path, store_path);
    assert_eq!(step.task.layer.media_type, media_type);
    let route = step.media_type(answers.encrypted, IMAGE_LAYER_GZIP_MEDIA_TYPE.to_string());
    let step = match route {
        LayerRoute::Plain(step) => {
            assert!(!answers.encrypted);
            assert_eq!(step.media_type, media_type);
            step
        }
        LayerRoute::Encrypted(step) => {
            assert!(answers.encrypted);
            assert_eq!(step.task.decrypt_config.as_deref(), Some("provider:key"));
            let (step, key) = step.key(answers.key)?;
            assert_eq!(key, 77);
            let (step, reader) = step.plaintext(answers.plaintext)?;
            assert_eq!(reader, "plaintext reader");
            assert_eq!(step.media_type, IMAGE_LAYER_GZIP_MEDIA_TYPE);
            step
        }
    };
    assert_eq!(step.encrypted, answers.encrypted);
    let (step, decoder) = step.decoder(answers.decoder)?;
    assert_eq!(decoder, 'z');
    assert_eq!(step.store_path, store_path);
    step.unpacked(answers.digest)
}

#[test]
fn plain_layer_is_accepted() {
    let store = MetaStore::default();
    let handled = run(
        task(IMAGE_LAYER_MEDIA_TYPE, "sha256:layer", "sha256:diff"),
        &store,
        good(false),
    );
    assert_eq!(
        handled,
        Ok(LayerMeta {
            encrypted: false,
            compressed_digest: "sha256:layer".to_string(),
            uncompressed_digest: "sha256:diff".to_string(),
            store_path: "/layers/5".to_string(),
        })
    );
}

#[test]
fn encrypted_layer_is_accepted() {
    let store = MetaStore::default();
    let handled = run(
        task(ENCRYPTED, "sha256:layer", "sha256:diff"),
        &store,
        good(true),
    );
    assert_eq!(
        handled,
        Ok(LayerMeta {
            encrypted: true,
            compressed_digest: "sha256:layer".to_string(),
            uncompressed_digest: "sha256:diff".to_string(),
            store_path: "/layers/5".to_string(),
        })
    );
}

#[test]
fn known_layer_is_kept() {
    let kept = LayerMeta {
        encrypted: true,
        compressed_digest: "sha256:layer".to_string(),
        uncompressed_digest: "sha256:other".to_string(),
        store_path: "/layers/1".to_string(),
    };
    let mut store = MetaStore::default();
    store.layer_db.insert("sha256:layer".to_string(), kept.clone());

    let layer = task(IMAGE_LAYER_MEDIA_TYPE, "sha256:layer", "sha256:diff");
    assert_eq!(layer.handle_layer(&store), LayerStart::Cached(kept));

    let other = task(IMAGE_LAYER_MEDIA_TYPE, "sha256:layer2", "sha256:diff");
    assert!(matches!(other.handle_layer(&store), LayerStart::Fetch(_)));
}

#[test]
fn outside_errors_are_passed_on_unchanged() {
    let default_layer = OciDescriptor::default();
    assert_eq!(default_layer.media_type, IMAGE_CONFIG_MEDIA_TYPE);

    let bad_media_err = format!("no decoder for {}", IMAGE_CONFIG_MEDIA_TYPE);
    for diff_id in ["", "foo"] {
        let mut answers = good(false);
        answers.decoder = Err(bad_media_err.clone());
        let handled = run(
            task(&default_layer.media_type, &default_layer.digest, diff_id),
            &MetaStore::default(),
            answers,
        );
        let error = handled.unwrap_err();
        assert_eq!(error, LayerError::Decoder(bad_media_err.clone()));
        assert_eq!(error.message(&bad_media_err), bad_media_err);
    }

    let bad_digest_err = format!("no digest algorithm in {:?}", "");
    for media_type in [IMAGE_LAYER_MEDIA_TYPE, IMAGE_LAYER_GZIP_MEDIA_TYPE] {
        let mut answers = good(false);
        answers.digest = Err(bad_digest_err.clone());
        let handled = run(task(media_type, "", ""), &MetaStore::default(), answers);
        let error = handled.unwrap_err();
        assert_eq!(error, LayerError::Unpack(bad_digest_err.clone()));
        assert_eq!(error.message(&bad_digest_err), bad_digest_err);
    }
}

#[test]
fn unequal_digest_is_refused() {
    let handled = run(
        task(IMAGE_LAYER_MEDIA_TYPE, "sha256:layer", "sha256:\"x\"\n"),
        &MetaStore::default(),
        good(false),
    );
    let error = handled.unwrap_err();
    assert_eq!(
        error,
        LayerError::UnequalDigest {
            uncompressed_digest: "sha256:diff".to_string(),
            diff_id: "sha256:\"x\"\n".to_string(),
        }
    );
    assert_eq!(
        error.message(""),
        "unequal uncompressed digest \"sha256:diff\" config diff_id \"sha256:\\\"x\\\"\\n\""
    );
}

#[test]
fn first_failure_is_reported() {
    let failing = |encrypted: bool| Answers {
        encrypted,
        key: Err("thread".to_string()),
        plaintext: Err("cipher".to_string()),
        decoder: Err("media type".to_string()),
        digest: Err("tar".to_string()),
    };
    let handle = |answers: Answers| {
        run(
            task(ENCRYPTED, "sha256:layer", "sha256:diff"),
            &MetaStore::default(),
            answers,
        )
        .unwrap_err()
    };

    let error = handle(failing(true));
    assert_eq!(error, LayerError::DecryptThread("thread".to_string()));
    assert_eq!(error.message("thread"), "decryptor thread failed to execute");

    let mut answers = failing(true);
    answers.key = Ok(Err("no key".to_string()));
    let error = handle(answers);
    assert_eq!(error, LayerError::DecryptKey("no key".to_string()));
    assert_eq!(error.message("no key"), "failed to get decrypt key11111111111");

    let mut answers = failing(true);
    answers.key = Ok(Ok(77));
    let error = handle(answers);
    assert_eq!(error, LayerError::Plaintext("cipher".to_string()));
    assert_eq!(
        error.message("cipher"),
        "failed to async_get_plaintext_layer: cipher"
    );

    let mut answers = good(true);
    answers.decoder = Err("media type".to_string());
    answers.digest = Err("tar".to_string());
    assert_eq!(handle(answers), LayerError::Decoder("media type".to_string()));

    let mut answers = good(true);
    answers.digest = Err("tar".to_string());
    assert_eq!(handle(answers), LayerError::Unpack("tar".to_string()));
}

#[test]
fn plain_layer_needs_no_key() {
    let mut answers = good(false);
    answers.key = Err("thread".to_string());
    answers.plaintext = Err("cipher".to_string());
    let handled = run(
        task(IMAGE_LAYER_MEDIA_TYPE, "sha256:layer", "sha256:diff"),
        &MetaStore::default(),
        answers,
    );
    assert!(!handled.unwrap().encrypted);
}

#[test]
fn layer_belongs_to_the_diff_id_at_its_place() {
    let diff_ids = ["a".to_string(), "b".to_string(), "c".to_string()];
    let layer = || LayerDescriptor {
        media_type: IMAGE_LAYER_MEDIA_TYPE.to_string(),
        digest: "sha256:layer".to_string(),
    };
    let blob: Result<u8, String> = Ok(9);
    let (task, reader) = layer_task(1, layer(), &diff_ids, &Some("conf"), blob).unwrap();
    assert_eq!(reader, 9);
    assert_eq!(task.diff_id, "b");
    assert_eq!(task.decrypt_config, Some("conf".to_string()));
    assert_eq!(task.layer, layer());

    let blob: Result<u8, String> = Err("refused".to_string());
    let error = layer_task(7, layer(), &diff_ids, &None, blob).unwrap_err();
    assert_eq!(error, PullError::BlobStream("refused".to_string()));
    assert_eq!(
        error.message("refused"),
        "failed to async pull blob stream refused"
    );
}

#[test]
fn handled_layer_is_numbered() {
    let layer_meta = LayerMeta {
        encrypted: false,
        compressed_digest: "c".to_string(),
        uncompressed_digest: "u".to_string(),
        store_path: "/layers/2".to_string(),
    };
    let handled: Result<LayerMeta, String> = Ok(layer_meta.clone());
    assert_eq!(numbered(4, handled), Ok((4, layer_meta)));

    let handled: Result<LayerMeta, String> = Err("broken".to_string());
    let error = numbered(4, handled).unwrap_err();
    assert_eq!(error, PullError::HandleLayer("broken".to_string()));
    assert_eq!(error.message("broken"), "failed to handle layer: broken");
}

#[test]
fn optional_text_is_copied() {
    assert_eq!(owned_text(&None), None);
    assert_eq!(owned_text(&Some("x")), Some("x".to_string()));
}

// Pulls two layers, a plain one and an encrypted one, that finish in the given
// order and are unpacked under the given directory.
fn pull(directory: &str, finish: [usize; 2], diff_id: &str, store: &MetaStore) -> Vec<LayerMeta> {
    let layers = [(IMAGE_LAYER_MEDIA_TYPE, "sha256:one"), (ENCRYPTED, "sha256:two")];
    let mut pulled = Vec::new();
    for n in finish {
        let layer = task(layers[n].0, layers[n].1, diff_id);
        let store_path = format!("{}/{}", directory, n);
        let handled = run_under(&store_path, layer, store, good(n == 1)).unwrap();
        pulled.push((n, handled));
    }
    sort_layers(pulled)
}

#[test]
fn pulls_agree_but_for_the_store_path() {
    let mut store = MetaStore::default();
    let kept = LayerMeta {
        encrypted: false,
        compressed_digest: "sha256:one".to_string(),
        uncompressed_digest: "sha256:diff".to_string(),
        store_path: "/layers/kept".to_string(),
    };
    store.layer_db.insert("sha256:one".to_string(), kept.clone());

    let one = pull("/a", [0, 1], "sha256:diff", &store);
    let two = pull("/b", [1, 0], "sha256:diff", &store);
    assert_eq!(one.len(), two.len());
    assert_eq!(one[0], kept);
    assert_eq!(two[0], kept);
    assert_eq!(one[1].store_path, "/a/1");
    assert_eq!(two[1].store_path, "/b/1");
    assert_eq!(one[1].compressed_digest, two[1].compressed_digest);
    assert_eq!(one[1].uncompressed_digest, two[1].uncompressed_digest);
    assert!(one[1].encrypted && two[1].encrypted);
}

#[test]
fn second_pull_gives_the_first_back() {
    let mut store = MetaStore::default();
    let first = pull("/a", [1, 0], "sha256:diff", &store);
    assert_eq!(first[0].store_path, "/a/0");
    assert_eq!(first[1].store_path, "/a/1");
    store.layer_db.insert("sha256:one".to_string(), first[0].clone());
    store.layer_db.insert("sha256:two".to_string(), first[1].clone());

    let start = task(ENCRYPTED, "sha256:two", "sha256:diff").handle_layer(&store);
    assert_eq!(start, LayerStart::Cached(first[1].clone()));
    let second = pull("/b", [0, 1], "sha256:another diff", &store);
    assert_eq!(second, first);
}
