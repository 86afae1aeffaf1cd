# image_pull

The decisions behind pulling a container image from an OCI registry, verified
with Verus.

- `src/registry.rs`: the settings of the registry client, and opening it with
  `oci_client`.
- `src/client.rs`: `PullClient`, and what it makes of the registry's answers.
- `src/layer.rs`: one layer, step by step, from its descriptor to the metadata
  that is kept of it.
- `src/order.rs`: layers that finished in any order, back in manifest order.
- `src/error.rs`: the errors and their messages.
- `src/text.rs`: optional texts.
- `src/laws.rs`: what holds of a pull as a whole.
- `app/`: the asynchronous work around the library. Decryption, decompression
  and the layer store are traits there, to be implemented by the image service.
