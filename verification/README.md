# web_extract

Verified request-data readers for a web framework, written in Verus.

The library reads typed values out of plain request data (the raw
`Content-Type` and `Content-Length` header values, the query string, and the
payload as it arrived in chunks) and states, in contracts, exactly when each
reader succeeds and which error answers a failure:

- `request`: the request head and what the HTTP message helpers read from it
  (media type, charset encoding, declared length, form content type);
- `decimal`, `text`: the `Content-Length` number and header text;
- `media`, `charset`: media types (`mime`) and charset decoding (`encoding`);
- `body`, `payload`: payloads read under a size limit, as bytes or as text;
- `config`: payload, form and JSON reader configurations;
- `wrappers`, `form`, `json`: the typed `Path`, `Query`, `Form` and `Json`
  values and their readers (`serde_urlencoded`, `serde_json`);
- `combine`: optional and fallible reads, and several reads at once;
- `error`: errors and the status codes that answer them;
- `laws`: properties that relate several readers.

`tests/` holds the tests.
