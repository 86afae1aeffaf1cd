use image_pull::client::PullClient;
use image_pull::error::PullError;
use image_pull::layer::LayerMeta;
use image_pull::order::sort_layers;
use image_pull::registry::{CertificateEncoding, ClientSettings, RegistryClient};
use oci_client::secrets::RegistryAuth;
use oci_client::Reference;

const BAD_PEM: &str = "-----BEGIN CERTIFICATE-----\n!\n-----END CERTIFICATE-----\n";

fn image() -> Reference {
    Reference::try_from("ghcr.io/confidential-containers/test-container-image-rs:busybox-gzip")
        .expect("create reference failed")
}

fn puller() -> PullClient<'static, u8> {
    PullClient::new(image(), 1, &RegistryAuth::Anonymous, 3, None, None, vec![]).unwrap()
}

fn layer(diff_id: &str) -> LayerMeta {
    LayerMeta {
        encrypted: false,
        compressed_digest: format!("compressed {}", diff_id),
        uncompressed_digest: diff_id.to_string(),
        store_path: format!("/layers/{}", diff_id),
    }
}

#[test]
fn client_holds_what_it_was_made_with() {
    let puller = PullClient::new(
        image(),
        "store",
        &RegistryAuth::Anonymous,
        3,
        Some("localhost"),
        Some("http://proxy.example:3128"),
        vec![],
    )
    .unwrap();
    assert_eq!(puller.reference, image());
    assert_eq!(puller.layer_store, "store");
    assert_eq!(puller.auth, &RegistryAuth::Anonymous);
    assert_eq!(puller.max_concurrent_download, 3);
    let settings = puller.client.settings();
    assert_eq!(settings.no_proxy, Some("localhost".to_string()));
    assert_eq!(
        settings.https_proxy,
        Some("http://proxy.example:3128".to_string())
    );
    assert!(settings.extra_root_certificates.is_empty());
}

#[test]
fn client_is_refused_a_broken_certificate() {
    let created = PullClient::new(
        image(),
        "store",
        &RegistryAuth::Anonymous,
        3,
        None,
        None,
        vec![BAD_PEM.to_string()],
    );
    match created {
        Err(PullError::Client(error)) => {
            let text = error.to_string();
            assert_eq!(PullError::Client(error).message(&text), text);
        }
        _ => panic!("a broken certificate was accepted"),
    }
}

#[test]
fn client_is_refused_a_broken_proxy() {
    let created = PullClient::new(
        image(),
        "store",
        &RegistryAuth::Anonymous,
        3,
        None,
        Some("http://["),
        vec![],
    );
    assert!(matches!(created, Err(PullError::Client(_))));
}

#[test]
fn nothing_but_opening_decides() {
    let auth = RegistryAuth::Basic(String::new(), String::new());
    let puller = PullClient::new(image(), (), &auth, 0, Some(""), None, vec![]).unwrap();
    assert_eq!(puller.max_concurrent_download, 0);
    assert_eq!(puller.client.settings().no_proxy, Some(String::new()));

    let broken = ClientSettings::new(None, Some("http://["), vec![]);
    let opening = RegistryClient::open(broken).err().unwrap().to_string();
    match PullClient::new(image(), (), &auth, 0, None, Some("http://["), vec![]) {
        Err(PullError::Client(error)) => assert_eq!(error.to_string(), opening),
        _ => panic!("a broken proxy was accepted"),
    }
}

#[test]
fn failure_to_open_is_passed_on() {
    let created: Result<PullClient<u8>, PullError<&str>> =
        PullClient::with_client(Err("no TLS"), image(), 1, &RegistryAuth::Anonymous, 3);
    assert!(matches!(created, Err(PullError::Client("no TLS"))));

    let opened: Result<_, ()> = Ok(puller().client);
    let again = PullClient::with_client(opened, image(), 2, &RegistryAuth::Anonymous, 8).unwrap();
    assert_eq!(again.layer_store, 2);
    assert_eq!(again.max_concurrent_download, 8);
}

#[test]
fn certificates_are_pem_bytes_in_order() {
    let settings = ClientSettings::new(
        None,
        None,
        vec!["first".to_string(), "zweite \u{fc}".to_string()],
    );
    assert_eq!(settings.no_proxy, None);
    assert_eq!(settings.https_proxy, None);
    assert_eq!(settings.extra_root_certificates.len(), 2);
    let first = &settings.extra_root_certificates[0];
    assert_eq!(first.encoding, CertificateEncoding::Pem);
    assert_eq!(first.data, b"first".to_vec());
    let second = &settings.extra_root_certificates[1];
    assert_eq!(second.encoding, CertificateEncoding::Pem);
    assert_eq!(second.data, b"zweite \xc3\xbc".to_vec());
}

#[test]
fn manifest_is_passed_on() {
    let mut puller = puller();
    let answer: Result<(u8, String, String), String> =
        Ok((5, "digest".to_string(), "config".to_string()));
    assert_eq!(puller.pull_manifest(answer.clone()), Ok(answer.unwrap()));

    let answer: Result<(u8, String, String), String> = Err("404".to_string());
    let error = puller.pull_manifest(answer).unwrap_err();
    assert_eq!(error, PullError::Manifest("404".to_string()));
    assert_eq!(error.message("404"), "failed to pull manifest 404");
}

#[test]
fn layers_keep_manifest_order() {
    let diff_ids = ["a", "b", "c", "d"];
    let finished: Vec<(usize, LayerMeta)> = [2, 0, 3, 1]
        .iter()
        .map(|&i| (i, layer(diff_ids[i])))
        .collect();
    let pulled: Result<Vec<(usize, LayerMeta)>, PullError<String>> = Ok(finished);
    let layer_metas = puller().async_pull_layers(pulled).unwrap();
    let digests: Vec<String> = layer_metas
        .iter()
        .map(|l| l.uncompressed_digest.clone())
        .collect();
    assert_eq!(digests, diff_ids, "hashes should be in same order");
}

#[test]
fn finishing_order_does_not_matter() {
    let one = vec![(1, layer("b")), (0, layer("a")), (2, layer("c"))];
    let two = vec![(2, layer("c")), (1, layer("b")), (0, layer("a"))];
    assert_eq!(sort_layers(one), sort_layers(two));
}

#[test]
fn last_pull_of_a_number_counts() {
    let pulled = vec![(9, layer("x")), (4, layer("a")), (9, layer("y"))];
    assert_eq!(sort_layers(pulled), vec![layer("a"), layer("y")]);
    assert_eq!(sort_layers(vec![]), vec![]);
}

#[test]
fn failed_pull_is_passed_on() {
    let pulled: Result<Vec<(usize, LayerMeta)>, PullError<String>> =
        Err(PullError::BlobStream("gone".to_string()));
    assert_eq!(
        puller().async_pull_layers(pulled),
        Err(PullError::BlobStream("gone".to_string()))
    );
}

#[test]
fn bootstrap_is_the_pulled_layer() {
    let puller = puller();
    let pulled: Result<Vec<(usize, LayerMeta)>, PullError<String>> = Ok(vec![(0, layer("boot"))]);
    let layer_metas = puller.async_pull_layers(pulled);
    assert_eq!(puller.pull_bootstrap(layer_metas), Ok(layer("boot")));

    let error = puller.pull_bootstrap::<String>(Ok(vec![])).unwrap_err();
    assert_eq!(error, PullError::NoBootstrapLayer);
    assert_eq!(error.message(""), "Failed to  download this bootstrap layer");

    let failed: Result<Vec<LayerMeta>, PullError<String>> =
        Err(PullError::HandleLayer("x".to_string()));
    assert_eq!(
        puller.pull_bootstrap(failed),
        Err(PullError::HandleLayer("x".to_string()))
    );
}
