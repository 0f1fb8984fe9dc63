# image_pool

An image upload service whose decisions are verified with Verus.

Clients `PUT /images` either a JSON body (`{"file": [<base64>...], "uri": [<uri>...]}`)
or a multipart form (`file[]` and `uri[]` fields). Each image (PNG or JPEG) is stored
under `./uploads` as `<uuid>.<subtype>` together with a 100x100 thumbnail, and the
answer lists one report per image, in request order.

Layout:

- `src/` — the verified library.
  - `infrastructure.rs`: the per-image report (`SaveInfo`) and the `Reason` trait of errors.
  - `infrastructure/media.rs`: media types, compared and read with the `mime` crate.
  - `infrastructure/utils.rs`: the accepted media types and the `Writer` (upload paths,
    original and thumbnail encoding).
  - `infrastructure/service.rs`: `SaveTask`, the state machine that stores one image,
    uploaded or fetched by URI; the outside world performs its actions and reports back.
  - `mat.rs`: decoded images (`Mat`): decoding, scaling and encoding with the `image` crate.
  - `web/json_handler.rs`, `web/json_handler/base64_image.rs`: reading a JSON request.
  - `web/multipart_handler.rs`: reading a multipart form.
- `app/` — the HTTP server (actix-web): routing, HTTP client, file writes, and the
  loop that runs each `SaveTask`.
- `tests/` — tests of the library.
